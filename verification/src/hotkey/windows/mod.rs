//! The engine for a platform whose keyboard events come from a low-level
//! keyboard hook, served by a thread with a message loop of its own.

use vstd::prelude::*;

pub mod engine;
pub mod hook;
pub mod key_state;
pub mod scan_code;
pub mod trace;

pub use hook::Hook;
pub use key_state::{key_idx, KeyState};
pub use scan_code::{parse_scan_code, resolvable_scan_code};

verus! {

/// What can go wrong on this platform.
#[derive(Clone, Copy, Debug, PartialEq, Eq, Structural)]
#[non_exhaustive]
pub enum Error {
    /// The keyboard hook could not be installed.
    WindowsHook,
    /// The background thread ended before it answered.
    ThreadStopped,
    /// The message loop reported an error.
    MessageLoop,
}

impl Error {
    /// The text that describes the error.
    pub open spec fn spec_message(self) -> Seq<char> {
        match self {
            Error::WindowsHook => "An error occurred in the Windows API."@,
            Error::ThreadStopped => "The background thread stopped unexpectedly."@,
            Error::MessageLoop => "An error occurred in the message loop."@,
        }
    }

    /// The text that describes the error.
    pub fn message(&self) -> (r: &'static str)
        ensures
            r@ == self.spec_message(),
    {
        match self {
            Error::WindowsHook => "An error occurred in the Windows API.",
            Error::ThreadStopped => "The background thread stopped unexpectedly.",
            Error::MessageLoop => "An error occurred in the message loop.",
        }
    }
}

} // verus!
