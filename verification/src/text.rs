//! Character-level text operations on which the rest of the library is built.

use vstd::prelude::*;

verus! {

/// Appends one character to a string (std's `String::push`).
#[verifier::external_body]
fn push_char(s: &mut String, c: char)
    ensures
        final(s)@ == old(s)@.push(c),
{
    s.push(c);
}

/// The characters of a string slice, in order.
pub fn chars_of(s: &str) -> (res: Vec<char>)
    ensures
        res@ == s@,
{
    let mut res: Vec<char> = Vec::new();
    for c in it: s.chars()
        invariant
            res@ == it.seq().take(it.index() as int),
            it.seq() == s@,
    {
        res.push(c);
    }
    res
}

/// Builds a string from a sequence of characters.
pub fn string_from_chars(v: &Vec<char>) -> (res: String)
    ensures
        res@ == v@,
{
    let mut res = String::new();
    let mut i: usize = 0;
    while i < v.len()
        invariant
            i <= v.len(),
            res@ == v@.take(i as int),
        decreases v.len() - i,
    {
        push_char(&mut res, v[i]);
        assert(v@.take(i + 1) == v@.take(i as int).push(v@[i as int]));
        i = i + 1;
    }
    assert(v@.take(v.len() as int) == v@);
    res
}

} // verus!

verus! {

/// Concatenation of two string slices.
pub fn concat_text(a: &str, b: &str) -> (res: String)
    ensures
        res@ == a@ + b@,
{
    let mut res = String::from_str(a);
    res.append(b);
    res
}

/// Concatenation of three string slices.
pub fn concat_text3(a: &str, b: &str, c: &str) -> (res: String)
    ensures
        res@ == a@ + b@ + c@,
{
    let mut res = String::from_str(a);
    res.append(b);
    res.append(c);
    res
}

/// An owned copy of a string slice.
pub fn owned(s: &str) -> (res: String)
    ensures
        res@ == s@,
{
    String::from_str(s)
}

/// Character-wise equality of two string slices.
pub fn text_eq(a: &str, b: &str) -> (res: bool)
    ensures
        res == (a@ == b@),
{
    let sa = String::from_str(a);
    let sb = String::from_str(b);
    sa == sb
}

/// Whether `c` has the Unicode `White_Space` property, the set that
/// std's `str::trim` removes.
pub open spec fn is_white_space(c: char) -> bool {
    ||| ('\u{9}' <= c && c <= '\u{d}')
    ||| c == ' '
    ||| c == '\u{85}'
    ||| c == '\u{a0}'
    ||| c == '\u{1680}'
    ||| ('\u{2000}' <= c && c <= '\u{200a}')
    ||| c == '\u{2028}'
    ||| c == '\u{2029}'
    ||| c == '\u{202f}'
    ||| c == '\u{205f}'
    ||| c == '\u{3000}'
}

fn white_space(c: char) -> (res: bool)
    ensures
        res == is_white_space(c),
{
    ('\u{9}' <= c && c <= '\u{d}') || c == ' ' || c == '\u{85}' || c == '\u{a0}' || c == '\u{1680}'
        || ('\u{2000}' <= c && c <= '\u{200a}') || c == '\u{2028}' || c == '\u{2029}' || c
        == '\u{202f}' || c == '\u{205f}' || c == '\u{3000}'
}

/// Number of leading white-space characters of `s`.
pub open spec fn leading_ws(s: Seq<char>) -> nat
    decreases s.len(),
{
    if s.len() > 0 && is_white_space(s[0]) {
        1 + leading_ws(s.drop_first())
    } else {
        0
    }
}

/// `s` without its trailing white-space characters.
pub open spec fn trim_end_ws(s: Seq<char>) -> Seq<char>
    decreases s.len(),
{
    if s.len() > 0 && is_white_space(s.last()) {
        trim_end_ws(s.drop_last())
    } else {
        s
    }
}

/// `s` with leading and trailing white space removed (std's `str::trim`).
pub open spec fn trim_ws(s: Seq<char>) -> Seq<char> {
    trim_end_ws(s.skip(leading_ws(s) as int))
}

proof fn lemma_leading_ws_bound(s: Seq<char>)
    ensures
        leading_ws(s) <= s.len(),
        forall|k: int| 0 <= k < leading_ws(s) ==> is_white_space(#[trigger] s[k]),
        leading_ws(s) < s.len() ==> !is_white_space(s[leading_ws(s) as int]),
    decreases s.len(),
{
    if s.len() > 0 && is_white_space(s[0]) {
        lemma_leading_ws_bound(s.drop_first());
        assert forall|k: int| 0 <= k < leading_ws(s) implies is_white_space(#[trigger] s[k]) by {
            if k > 0 {
                assert(s[k] == s.drop_first()[k - 1]);
            }
        }
    }
}

proof fn lemma_leading_ws_exact(s: Seq<char>, i: int)
    requires
        0 <= i <= s.len(),
        forall|k: int| 0 <= k < i ==> is_white_space(#[trigger] s[k]),
        i < s.len() ==> !is_white_space(s[i]),
    ensures
        leading_ws(s) == i,
    decreases s.len(),
{
    if i > 0 {
        assert(is_white_space(s[0]));
        assert forall|k: int| 0 <= k < i - 1 implies is_white_space(#[trigger] s.drop_first()[k]) by {
            assert(s.drop_first()[k] == s[k + 1]);
        }
        if i - 1 < s.drop_first().len() {
            assert(s.drop_first()[i - 1] == s[i]);
        }
        lemma_leading_ws_exact(s.drop_first(), i - 1);
    }
}

proof fn lemma_trim_end_exact(s: Seq<char>, j: int)
    requires
        0 <= j <= s.len(),
        forall|k: int| j <= k < s.len() ==> is_white_space(#[trigger] s[k]),
        j > 0 ==> !is_white_space(s[j - 1]),
    ensures
        trim_end_ws(s) == s.subrange(0, j),
    decreases s.len(),
{
    if j < s.len() {
        assert(is_white_space(s.last()));
        assert forall|k: int| j <= k < s.drop_last().len() implies is_white_space(
            #[trigger] s.drop_last()[k],
        ) by {
            assert(s.drop_last()[k] == s[k]);
        }
        lemma_trim_end_exact(s.drop_last(), j);
        assert(s.drop_last().subrange(0, j) == s.subrange(0, j));
    } else {
        assert(s.subrange(0, j) == s);
    }
}

/// `s` with leading and trailing white space removed, as std's `str::trim`.
pub fn trim(s: &str) -> (res: String)
    ensures
        res@ == trim_ws(s@),
{
    let cs = chars_of(s);
    let n = cs.len();
    let mut i: usize = 0;
    while i < n && white_space(cs[i])
        invariant
            n == cs@.len(),
            i <= n,
            forall|k: int| 0 <= k < i ==> is_white_space(#[trigger] cs@[k]),
        decreases n - i,
    {
        i = i + 1;
    }
    let mut j: usize = n;
    while j > i && white_space(cs[j - 1])
        invariant
            n == cs@.len(),
            i <= j <= n,
            forall|k: int| j <= k < n ==> is_white_space(#[trigger] cs@[k]),
        decreases j,
    {
        j = j - 1;
    }
    let mut out: Vec<char> = Vec::new();
    let mut k: usize = i;
    while k < j
        invariant
            n == cs@.len(),
            i <= k <= j <= n,
            out@ == cs@.subrange(i as int, k as int),
        decreases j - k,
    {
        out.push(cs[k]);
        assert(cs@.subrange(i as int, k + 1) == cs@.subrange(i as int, k as int).push(cs@[k as int]));
        k = k + 1;
    }
    proof {
        let sq = cs@;
        lemma_leading_ws_exact(sq, i as int);
        let rest = sq.skip(i as int);
        assert forall|k: int| j - i <= k < rest.len() implies is_white_space(#[trigger] rest[k]) by {
            assert(rest[k] == sq[k + i]);
        }
        if j > i {
            assert(rest[j - i - 1] == sq[j - 1]);
        }
        lemma_trim_end_exact(rest, j - i);
        assert(rest.subrange(0, j - i) == sq.subrange(i as int, j as int));
    }
    string_from_chars(&out)
}

} // verus!

verus! {

/// `s` with every trailing repetition of the non-empty pattern `p`
/// removed, as std's `str::trim_end_matches` with a string pattern.
pub open spec fn strip_suffixes(s: Seq<char>, p: Seq<char>) -> Seq<char>
    decreases s.len(),
{
    if p.len() > 0 && p.len() <= s.len() && s.subrange(s.len() - p.len(), s.len() as int) == p {
        strip_suffixes(s.subrange(0, s.len() - p.len()), p)
    } else {
        s
    }
}

/// Whether `s` ends with `p`.
pub open spec fn has_suffix(s: Seq<char>, p: Seq<char>) -> bool {
    p.len() <= s.len() && s.subrange(s.len() - p.len(), s.len() as int) == p
}

fn suffix_at(cs: &Vec<char>, end: usize, ps: &Vec<char>) -> (res: bool)
    requires
        end <= cs@.len(),
    ensures
        res == has_suffix(cs@.subrange(0, end as int), ps@),
{
    let m = ps.len();
    if m > end {
        return false;
    }
    let start = end - m;
    let mut k: usize = 0;
    while k < m
        invariant
            m == ps@.len(),
            start + m == end,
            end <= cs@.len(),
            k <= m,
            forall|t: int| 0 <= t < k ==> cs@[start + t] == ps@[t],
        decreases m - k,
    {
        if cs[start + k] != ps[k] {
            proof {
                let pre = cs@.subrange(0, end as int);
                assert(pre.subrange(pre.len() - m, pre.len() as int)[k as int] == cs@[start + k]);
            }
            return false;
        }
        k = k + 1;
    }
    proof {
        let pre = cs@.subrange(0, end as int);
        assert(pre.subrange(pre.len() - m, pre.len() as int) =~= ps@);
    }
    true
}

/// `s` with every trailing repetition of `pat` removed
/// (std's `str::trim_end_matches` with a string pattern).
pub fn trim_end_matches(s: &str, pat: &str) -> (res: String)
    ensures
        res@ == strip_suffixes(s@, pat@),
{
    let cs = chars_of(s);
    let ps = chars_of(pat);
    let m = ps.len();
    let mut end: usize = cs.len();
    proof {
        assert(cs@.subrange(0, cs@.len() as int) == cs@);
    }
    if m > 0 {
        while suffix_at(&cs, end, &ps)
            invariant
                end <= cs@.len(),
                m == ps@.len(),
                m > 0,
                strip_suffixes(cs@.subrange(0, end as int), ps@) == strip_suffixes(cs@, ps@),
            decreases end,
        {
            proof {
                let pre = cs@.subrange(0, end as int);
                assert(pre.subrange(0, pre.len() - m) == cs@.subrange(0, end - m));
            }
            end = end - m;
        }
    }
    proof {
        assert(cs@.subrange(0, cs@.len() as int) == cs@);
    }
    let mut out: Vec<char> = Vec::new();
    let mut k: usize = 0;
    while k < end
        invariant
            end <= cs@.len(),
            k <= end,
            out@ == cs@.subrange(0, k as int),
        decreases end - k,
    {
        out.push(cs[k]);
        assert(cs@.subrange(0, k + 1) == cs@.subrange(0, k as int).push(cs@[k as int]));
        k = k + 1;
    }
    string_from_chars(&out)
}

/// Whether `p` occurs in `s` as a contiguous block.
pub open spec fn occurs_in(s: Seq<char>, p: Seq<char>) -> bool {
    exists|i: int| 0 <= i && i + p.len() <= s.len() && #[trigger] s.subrange(i, i + p.len()) == p
}

/// Whether `pat` occurs in `s` (std's `str::contains` with a string pattern).
pub fn contains_text(s: &str, pat: &str) -> (res: bool)
    ensures
        res == occurs_in(s@, pat@),
{
    let cs = chars_of(s);
    let ps = chars_of(pat);
    let n = cs.len();
    let m = ps.len();
    if m == 0 {
        assert(s@.subrange(0int, 0int + pat@.len()) == pat@);
        return true;
    }
    if m > n {
        proof {
            assert forall|i: int| 0 <= i && i + m <= n implies #[trigger] cs@.subrange(i, i + m) != ps@ by {}
        }
        return false;
    }
    let mut i: usize = 0;
    while i <= n - m
        invariant
            n == cs@.len(),
            m == ps@.len(),
            1 <= m <= n,
            cs@ == s@,
            ps@ == pat@,
            i <= n - m + 1,
            forall|t: int| 0 <= t < i ==> #[trigger] cs@.subrange(t, t + m) != ps@,
        decreases n - i,
    {
        let found = suffix_at(&cs, i + m, &ps);
        proof {
            let pre = cs@.subrange(0, i + m);
            assert(pre.subrange(pre.len() - m, pre.len() as int) == cs@.subrange(i as int, i + m));
        }
        if found {
            assert(cs@.subrange(i as int, i + m) == ps@);
            assert(s@.subrange(i as int, i + pat@.len()) == pat@);
            return true;
        }
        i = i + 1;
    }
    false
}

/// The decimal character of a digit below ten.
pub open spec fn digit_char(d: int) -> char {
    (48 + d) as char
}

/// Decimal representation of `n`, without leading zeros (std's `Display` for integers).
pub open spec fn decimal(n: nat) -> Seq<char>
    decreases n,
{
    if n < 10 {
        seq![digit_char(n as int)]
    } else {
        decimal(n / 10).push(digit_char((n % 10) as int))
    }
}

fn decimal_chars(n: u64) -> (res: Vec<char>)
    ensures
        res@ == decimal(n as nat),
    decreases n,
{
    let d = (n % 10) as u8;
    let c = (48u8 + d) as char;
    if n < 10 {
        let mut v: Vec<char> = Vec::new();
        v.push(c);
        v
    } else {
        let mut v = decimal_chars(n / 10);
        v.push(c);
        v
    }
}

/// Decimal representation of `n`.
pub fn decimal_string(n: u64) -> (res: String)
    ensures
        res@ == decimal(n as nat),
{
    let v = decimal_chars(n);
    string_from_chars(&v)
}

/// Lower-case hexadecimal character of a value below sixteen.
pub open spec fn hex_char(d: int) -> char {
    if d < 10 {
        (48 + d) as char
    } else {
        (87 + d) as char
    }
}

/// Lower-case hexadecimal representation of a byte string, two characters per byte.
pub open spec fn hex_lower(bytes: Seq<u8>) -> Seq<char>
    decreases bytes.len(),
{
    if bytes.len() == 0 {
        Seq::empty()
    } else {
        hex_lower(bytes.drop_last()).push(hex_char(bytes.last() as int / 16)).push(
            hex_char(bytes.last() as int % 16),
        )
    }
}

fn hex_digit(d: u8) -> (c: char)
    requires
        d < 16,
    ensures
        c == hex_char(d as int),
{
    if d < 10 {
        (48u8 + d) as char
    } else {
        (87u8 + d) as char
    }
}

/// Lower-case hexadecimal representation of the first `count` bytes of `bytes`.
pub fn hex_prefix(bytes: &Vec<u8>, count: usize) -> (res: String)
    requires
        count <= bytes@.len(),
    ensures
        res@ == hex_lower(bytes@.take(count as int)),
{
    let mut out: Vec<char> = Vec::new();
    let mut i: usize = 0;
    while i < count
        invariant
            count <= bytes@.len(),
            i <= count,
            out@ == hex_lower(bytes@.take(i as int)),
        decreases count - i,
    {
        let b = bytes[i];
        out.push(hex_digit(b / 16));
        out.push(hex_digit(b % 16));
        assert(bytes@.take(i + 1).drop_last() == bytes@.take(i as int));
        i = i + 1;
    }
    string_from_chars(&out)
}

} // verus!
