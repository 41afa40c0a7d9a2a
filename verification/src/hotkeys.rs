//! The global-shortcut manager.  Registration with the windowing system is
//! not wired up yet; the manager accepts every request and the caller's
//! shell binds the shortcuts itself.

use vstd::prelude::*;

use crate::error::AppError;

verus! {

/// The manager for the recording shortcuts.
#[derive(Debug)]
pub struct HotkeyManager {}

impl HotkeyManager {
    /// A fresh manager; creation cannot fail.
    pub fn new() -> (r: Result<HotkeyManager, AppError>)
        ensures
            r is Ok,
    {
        Ok(HotkeyManager {})
    }

    /// Accepts the shortcut; binding it is left to the caller's shell.
    pub fn register_recording_hotkey(&mut self, _shortcut: &str) -> (r: Result<(), AppError>)
        ensures
            r is Ok,
    {
        Ok(())
    }
}

impl Default for HotkeyManager {
    /// The default manager is a fresh one.
    fn default() -> (r: Self) {
        HotkeyManager {}
    }
}

} // verus!
