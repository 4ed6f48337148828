//! The state the mod manager keeps in memory while it runs: the settings,
//! shared behind a reader-writer lock. Taking the lock, and what is read
//! or written under it, are the caller's: what the lock holds changes
//! through shared references under other threads, so nothing about it can
//! be stated here.

use crate::settings::Settings;
use std::sync::RwLock;
use vstd::prelude::*;

verus! {

#[verifier::external_type_specification]
#[verifier::external_body]
#[verifier::reject_recursive_types(T)]
pub struct ExRwLock<T: ?Sized>(RwLock<T>);

/// Calls `std::sync::RwLock::new`. What the lock holds can change under
/// other threads, so nothing is stated of its content.
#[verifier::external_body]
fn new_lock(settings: Settings) -> RwLock<Settings> {
    RwLock::new(settings)
}

/// The settings held in memory by the running mod manager.
pub struct AppState {
    pub settings: RwLock<Settings>,
}

impl AppState {
    /// A state holding `settings`.
    pub fn new(settings: Settings) -> AppState {
        AppState { settings: new_lock(settings) }
    }
}

impl Default for AppState {
    fn default() -> AppState {
        AppState::new(Settings::default())
    }
}

} // verus!
