//! The one decision of setup: the host window is there and Lynx runs on it,
//! or it is not and startup ends.

use vstd::prelude::*;

verus! {

/// Why startup cannot go on.
#[derive(Debug, Clone, Copy, PartialEq, Eq, Structural)]
pub enum StartupError {
    /// No window is registered under the main label.
    MainWindowMissing,
}

/// The label of the window that hosts Lynx, as a sequence of characters.
pub open spec fn main_window_label_chars() -> Seq<char> {
    seq!['m', 'a', 'i', 'n']
}

/// The label under which the application looks its host window up.
pub fn main_window_label() -> (label: &'static str)
    ensures
        label@ == main_window_label_chars(),
{
    proof {
        reveal_strlit("main");
    }
    "main"
}

/// Turns the outcome of the window lookup into the outcome of setup.
///
/// A window that was found is handed back untouched, for Lynx to run on.
/// A failed lookup is the one error of startup; setup never goes on without
/// a window.
pub fn require_main_window<W>(found: Option<W>) -> (outcome: Result<W, StartupError>)
    ensures
        outcome is Ok <==> found is Some,
        found matches Some(window) ==> outcome == Ok::<W, StartupError>(window),
        found is None ==> outcome == Err::<W, StartupError>(StartupError::MainWindowMissing),
{
    match found {
        Some(window) => Ok(window),
        None => Err(StartupError::MainWindowMissing),
    }
}

} // verus!
