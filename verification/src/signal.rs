//! The cooperative shutdown flag.
//!
//! The signal layer outside the library listens for the process signals
//! and raises this flag; the main loop polls it. The flag's own rules —
//! it starts lowered, a request raises it, and it never lowers again —
//! are verified here.

use vstd::prelude::*;

verus! {

/// The cooperative "shutdown requested" notification.
#[derive(Debug, Clone, Copy, PartialEq, Eq, Structural)]
pub struct SignalHandler {
    /// Whether shutdown has been requested.
    pub shutdown_requested: bool,
}

impl SignalHandler {
    /// A fresh handler: shutdown not requested.
    pub fn new() -> (r: Self)
        ensures
            !r.shutdown_requested,
    {
        SignalHandler { shutdown_requested: false }
    }

    /// Whether shutdown has been requested.
    pub fn should_shutdown(&self) -> (r: bool)
        ensures
            r == self.shutdown_requested,
    {
        self.shutdown_requested
    }

    /// Requests shutdown; the flag stays raised from here on.
    pub fn request_shutdown(&mut self)
        ensures
            final(self).shutdown_requested,
    {
        self.shutdown_requested = true;
    }
}

impl Default for SignalHandler {
    /// Same as `new`: shutdown not requested.
    fn default() -> (r: Self)
        ensures
            !r.shutdown_requested,
    {
        SignalHandler::new()
    }
}

} // verus!
