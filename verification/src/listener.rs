//! What the connection driver is told after one inbound chunk.

use vstd::prelude::*;

verus! {

/// The signal handed back to the connection driver.
#[derive(Clone, Copy, Debug, PartialEq, Eq, Structural)]
pub enum SessionResult {
    /// Keep reading from the connection.
    Continue,
    /// Shut the connection down.
    Close,
    /// Promote the transport to TLS before reading on.
    UpgradeTls,
}

impl SessionResult {
    /// Whether this result ends the processing of the current chunk.
    pub open spec fn is_final(self) -> bool {
        self != SessionResult::Continue
    }

    /// Whether this result ends the processing of the current chunk.
    pub fn ends_chunk(self) -> (r: bool)
        ensures
            r == self.is_final(),
    {
        match self {
            SessionResult::Continue => false,
            _ => true,
        }
    }
}

} // verus!
