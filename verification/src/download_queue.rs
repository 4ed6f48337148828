//! The download queue: requested downloads wait in arrival order, at most
//! [`MAX_CONCURRENT_DOWNLOADS`] run at once, and a download can be
//! cancelled while it waits or while it runs. The caller performs the
//! downloads and waits for free slots; this state decides what happens.

use crate::text::text_eq;
use std::collections::VecDeque;
use vstd::prelude::*;

verus! {

/// How many downloads may run at the same time.
pub const MAX_CONCURRENT_DOWNLOADS: usize = 2;

/// One requested download.
#[derive(Clone, Debug)]
pub struct QueuedDownload {
    pub url: String,
    pub filename: String,
    pub repo_url: String,
}

impl QueuedDownload {
    /// An owned copy of this request.
    pub fn duplicate(&self) -> (res: QueuedDownload)
        ensures
            res == *self,
    {
        QueuedDownload {
            url: self.url.clone(),
            filename: self.filename.clone(),
            repo_url: self.repo_url.clone(),
        }
    }
}

/// What a cancellation found: whether the download was still waiting and
/// whether it was running.
#[derive(Clone, Copy, Debug, PartialEq, Eq, Structural)]
pub struct CancelOutcome {
    pub was_queued: bool,
    pub was_downloading: bool,
}

/// Keeps the downloads whose file is not `filename`.
pub open spec fn keeps_other_files(filename: Seq<char>) -> spec_fn(QueuedDownload) -> bool {
    |d: QueuedDownload| d.filename@ != filename
}

/// Whether `filename` is among the running downloads `names`.
pub open spec fn names_contain(names: Seq<String>, filename: Seq<char>) -> bool {
    exists|i: int| 0 <= i < names.len() && (#[trigger] names[i])@ == filename
}

/// Whether no file name occurs twice in `names`.
pub open spec fn names_distinct(names: Seq<String>) -> bool {
    forall|i: int, j: int| 0 <= i < j < names.len() ==> (#[trigger] names[i])@ != (#[trigger] names[j])@
}

/// The state of the download queue.
pub struct DownloadQueue {
    queue: VecDeque<QueuedDownload>,
    running_files: Vec<String>,
    slots_in_use: usize,
}

impl DownloadQueue {
    /// The downloads waiting, first to start first.
    pub closed spec fn pending(&self) -> Seq<QueuedDownload> {
        self.queue@
    }

    /// File names of the downloads running and cancellable.
    pub closed spec fn running(&self) -> Seq<String> {
        self.running_files@
    }

    /// Number of download slots taken.
    pub closed spec fn slots(&self) -> nat {
        self.slots_in_use as nat
    }

    /// The queue's invariant: no more slots taken than allowed, and each
    /// running file recorded once.
    pub open spec fn wf(&self) -> bool {
        &&& self.slots() <= MAX_CONCURRENT_DOWNLOADS
        &&& names_distinct(self.running())
    }

    /// An empty queue with no download running.
    pub fn new() -> (res: DownloadQueue)
        ensures
            res.wf(),
            res.pending() == Seq::<QueuedDownload>::empty(),
            res.running() == Seq::<String>::empty(),
            res.slots() == 0,
    {
        DownloadQueue { queue: VecDeque::new(), running_files: Vec::new(), slots_in_use: 0 }
    }

    /// Number of download slots taken.
    pub fn slots_taken(&self) -> (res: usize)
        ensures
            res == self.slots(),
    {
        self.slots_in_use
    }

    /// Puts a download at the back of the queue.
    pub fn add_download(&mut self, url: String, filename: String, repo_url: String)
        requires
            old(self).wf(),
        ensures
            final(self).wf(),
            final(self).pending() == old(self).pending().push(
                QueuedDownload { url, filename, repo_url },
            ),
            final(self).running() == old(self).running(),
            final(self).slots() == old(self).slots(),
    {
        self.queue.push_back(QueuedDownload { url, filename, repo_url });
    }

    /// Takes a download slot if one is free; returns whether it did.
    pub fn acquire_slot(&mut self) -> (granted: bool)
        requires
            old(self).wf(),
        ensures
            final(self).wf(),
            granted == (old(self).slots() < MAX_CONCURRENT_DOWNLOADS),
            final(self).slots() == if granted {
                old(self).slots() + 1
            } else {
                old(self).slots()
            },
            final(self).pending() == old(self).pending(),
            final(self).running() == old(self).running(),
    {
        if self.slots_in_use < MAX_CONCURRENT_DOWNLOADS {
            self.slots_in_use = self.slots_in_use + 1;
            true
        } else {
            false
        }
    }

    /// Gives back a download slot taken by [`Self::acquire_slot`].
    pub fn release_slot(&mut self)
        requires
            old(self).wf(),
            old(self).slots() > 0,
        ensures
            final(self).wf(),
            final(self).slots() == old(self).slots() - 1,
            final(self).pending() == old(self).pending(),
            final(self).running() == old(self).running(),
    {
        self.slots_in_use = self.slots_in_use - 1;
    }

    /// Takes the download at the front of the queue, if any, and records it
    /// as running (so that it can be cancelled).
    pub fn take_next(&mut self) -> (res: Option<QueuedDownload>)
        requires
            old(self).wf(),
        ensures
            final(self).wf(),
            final(self).slots() == old(self).slots(),
            old(self).pending().len() == 0 ==> res is None && final(self).pending() == old(
                self,
            ).pending() && final(self).running() == old(self).running(),
            old(self).pending().len() > 0 ==> res == Some(old(self).pending()[0])
                && final(self).pending() == old(self).pending().drop_first() && names_contain(
                final(self).running(),
                old(self).pending()[0].filename@,
            ) && forall|f: Seq<char>|
                f != old(self).pending()[0].filename@ ==> (names_contain(final(self).running(), f)
                    == names_contain(old(self).running(), f)),
    {
        let d = match self.queue.pop_front() {
            None => return None,
            Some(d) => d,
        };
        proof {
            assert(self.queue@ == old(self).queue@.drop_first());
        }
        let name = d.filename.clone();
        self.mark_running(name);
        Some(d)
    }

    fn mark_running(&mut self, filename: String)
        requires
            old(self).wf(),
        ensures
            final(self).wf(),
            final(self).queue@ == old(self).queue@,
            final(self).slots_in_use == old(self).slots_in_use,
            names_contain(final(self).running(), filename@),
            forall|f: Seq<char>|
                f != filename@ ==> (names_contain(final(self).running(), f) == names_contain(
                    old(self).running(),
                    f,
                )),
    {
        let mut i: usize = 0;
        while i < self.running_files.len()
            invariant
                i <= self.running_files@.len(),
                forall|j: int| 0 <= j < i ==> (#[trigger] self.running_files@[j])@ != filename@,
                self.queue@ == old(self).queue@,
                self.slots_in_use == old(self).slots_in_use,
                self.running_files@ == old(self).running_files@,
                old(self).wf(),
            decreases self.running_files.len() - i,
        {
            if text_eq(self.running_files[i].as_str(), filename.as_str()) {
                proof {
                    assert(self.running_files@[i as int]@ == filename@);
                }
                return;
            }
            i = i + 1;
        }
        let ghost before = self.running_files@;
        self.running_files.push(filename);
        proof {
            let after = self.running_files@;
            assert(after[before.len() as int] == filename);
            assert forall|f: Seq<char>| f != filename@ implies (names_contain(after, f)
                == names_contain(before, f)) by {
                if names_contain(after, f) {
                    let k = choose|k: int| 0 <= k < after.len() && (#[trigger] after[k])@ == f;
                    assert(before[k] == after[k]);
                }
                if names_contain(before, f) {
                    let k = choose|k: int| 0 <= k < before.len() && (#[trigger] before[k])@ == f;
                    assert(after[k] == before[k]);
                }
            }
        }
    }

    /// Removes `filename` from the running downloads; returns whether it was there.
    fn unmark_running(&mut self, filename: &str) -> (was_running: bool)
        requires
            old(self).wf(),
        ensures
            final(self).wf(),
            final(self).queue@ == old(self).queue@,
            final(self).slots_in_use == old(self).slots_in_use,
            was_running == names_contain(old(self).running(), filename@),
            !names_contain(final(self).running(), filename@),
            forall|f: Seq<char>|
                f != filename@ ==> (names_contain(final(self).running(), f) == names_contain(
                    old(self).running(),
                    f,
                )),
    {
        let mut i: usize = 0;
        while i < self.running_files.len()
            invariant
                i <= self.running_files@.len(),
                forall|j: int| 0 <= j < i ==> (#[trigger] self.running_files@[j])@ != filename@,
                self.queue@ == old(self).queue@,
                self.slots_in_use == old(self).slots_in_use,
                self.running_files@ == old(self).running_files@,
                old(self).wf(),
            decreases self.running_files.len() - i,
        {
            if text_eq(self.running_files[i].as_str(), filename) {
                let ghost before = self.running_files@;
                self.running_files.remove(i);
                proof {
                    let after = self.running_files@;
                    assert(after == before.remove(i as int));
                    assert(before[i as int]@ == filename@);
                    assert forall|a: int, b: int| 0 <= a < b < after.len() implies (
                    #[trigger] after[a])@ != (#[trigger] after[b])@ by {
                        let a2 = if a < i {
                            a
                        } else {
                            a + 1
                        };
                        let b2 = if b < i {
                            b
                        } else {
                            b + 1
                        };
                        assert(after[a] == before[a2]);
                        assert(after[b] == before[b2]);
                    }
                    assert forall|f: Seq<char>| names_contain(after, f) implies names_contain(
                        before,
                        f,
                    ) && f != filename@ by {
                        {
                            let k = choose|k: int| 0 <= k < after.len() && (#[trigger] after[k])@ == f;
                            let k2 = if k < i {
                                k
                            } else {
                                k + 1
                            };
                            assert(after[k] == before[k2]);
                            assert(k2 != i);
                        }
                    }
                    assert forall|f: Seq<char>| f != filename@ && names_contain(before, f) implies names_contain(
                        after,
                        f,
                    ) by {
                        let k = choose|k: int| 0 <= k < before.len() && (#[trigger] before[k])@ == f;
                        assert(k != i);
                        let k2 = if k < i {
                            k
                        } else {
                            k - 1
                        };
                        assert(after[k2] == before[k]);
                    }
                    assert(names_contain(before, filename@));
                }
                return true;
            }
            i = i + 1;
        }
        false
    }

    /// Records that the running download of `filename` ended (with success
    /// or failure): it can no longer be cancelled.
    pub fn finish_download(&mut self, filename: &str)
        requires
            old(self).wf(),
        ensures
            final(self).wf(),
            final(self).pending() == old(self).pending(),
            final(self).slots() == old(self).slots(),
            !names_contain(final(self).running(), filename@),
            forall|f: Seq<char>|
                f != filename@ ==> (names_contain(final(self).running(), f) == names_contain(
                    old(self).running(),
                    f,
                )),
    {
        self.unmark_running(filename);
    }

    /// Cancels the download of `filename`: every waiting request for it
    /// leaves the queue (the others keep their order), and a running
    /// download of it stops being cancellable here. Reports what was found.
    pub fn cancel_download(&mut self, filename: &str) -> (res: CancelOutcome)
        requires
            old(self).wf(),
        ensures
            final(self).wf(),
            final(self).slots() == old(self).slots(),
            final(self).pending() == old(self).pending().filter(keeps_other_files(filename@)),
            res.was_queued == (final(self).pending().len() < old(self).pending().len()),
            res.was_downloading == names_contain(old(self).running(), filename@),
            !names_contain(final(self).running(), filename@),
            forall|f: Seq<char>|
                f != filename@ ==> (names_contain(final(self).running(), f) == names_contain(
                    old(self).running(),
                    f,
                )),
    {
        let len_before = self.queue.len();
        let kept = retain_other_files(&self.queue, filename);
        self.queue = kept;
        let was_queued = self.queue.len() < len_before;
        let was_downloading = self.unmark_running(filename);
        CancelOutcome { was_queued, was_downloading }
    }
}

/// The downloads of `queue` whose file is not `filename`, in order.
fn retain_other_files(queue: &VecDeque<QueuedDownload>, filename: &str) -> (res: VecDeque<QueuedDownload>)
    ensures
        res@ == queue@.filter(keeps_other_files(filename@)),
{
    let ghost pred = keeps_other_files(filename@);
    let mut res: VecDeque<QueuedDownload> = VecDeque::new();
    let mut i: usize = 0;
    while i < queue.len()
        invariant
            i <= queue@.len(),
            pred == keeps_other_files(filename@),
            res@ == queue@.take(i as int).filter(pred),
        decreases queue.len() - i,
    {
        proof {
            reveal_with_fuel(Seq::<_>::filter, 1);
            assert(queue@.take(i + 1).drop_last() == queue@.take(i as int));
            assert(queue@.take(i + 1).last() == queue@[i as int]);
        }
        if !text_eq(queue[i].filename.as_str(), filename) {
            res.push_back(queue[i].duplicate());
        }
        i = i + 1;
    }
    assert(queue@.take(queue@.len() as int) == queue@);
    res
}


/// After a file is cancelled, no waiting request is for it.
pub proof fn lemma_cancel_leaves_no_request(pending: Seq<QueuedDownload>, filename: Seq<char>)
    ensures
        forall|i: int|
            0 <= i < pending.filter(keeps_other_files(filename)).len() ==> (#[trigger] pending.filter(
                keeps_other_files(filename),
            )[i]).filename@ != filename,
{
    broadcast use vstd::seq_lib::group_filter_ensures;

}

proof fn lemma_filter_all<A>(s: Seq<A>, pred: spec_fn(A) -> bool)
    requires
        forall|i: int| 0 <= i < s.len() ==> pred(#[trigger] s[i]),
    ensures
        s.filter(pred) == s,
    decreases s.len(),
{
    reveal_with_fuel(Seq::<_>::filter, 1);
    if s.len() > 0 {
        assert forall|i: int| 0 <= i < s.drop_last().len() implies pred(#[trigger] s.drop_last()[i]) by {
            assert(s.drop_last()[i] == s[i]);
        }
        lemma_filter_all(s.drop_last(), pred);
        assert(s.drop_last().push(s.last()) == s);
    }
}

/// Cancelling a file twice leaves the same requests waiting as cancelling it once.
pub proof fn lemma_cancel_twice(pending: Seq<QueuedDownload>, filename: Seq<char>)
    ensures
        pending.filter(keeps_other_files(filename)).filter(keeps_other_files(filename))
            == pending.filter(keeps_other_files(filename)),
{
    broadcast use vstd::seq_lib::group_filter_ensures;

    lemma_filter_all(pending.filter(keeps_other_files(filename)), keeps_other_files(filename));
}

/// Cancelling a file no request waits for leaves the queue as it is.
pub proof fn lemma_cancel_absent_file(pending: Seq<QueuedDownload>, filename: Seq<char>)
    requires
        forall|i: int| 0 <= i < pending.len() ==> (#[trigger] pending[i]).filename@ != filename,
    ensures
        pending.filter(keeps_other_files(filename)) == pending,
{
    lemma_filter_all(pending, keeps_other_files(filename));
}

/// Requests start in the order they were made: adding a request behind
/// waiting ones changes neither which starts next nor what follows it,
/// except that the new request comes last.
pub proof fn lemma_first_in_first_out(pending: Seq<QueuedDownload>, d: QueuedDownload)
    requires
        pending.len() > 0,
    ensures
        pending.push(d)[0] == pending[0],
        pending.push(d).drop_first() == pending.drop_first().push(d),
{
    assert(pending.push(d).drop_first() =~= pending.drop_first().push(d));
}

} // verus!
