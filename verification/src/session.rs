//! What the one-shot sessions share: how far such a session has come.

use vstd::prelude::*;

verus! {

/// How far a session that makes one request has come. The request goes out
/// in the very step that learns of the connection, so a session is never
/// found connected with its request still to be made.
#[derive(Clone, Copy, Debug, PartialEq, Eq, Structural)]
pub enum Phase {
    /// Not connected, and no dial asked for.
    Disconnected,
    /// The dial is out.
    Dialing,
    /// The connection stood and the request is out.
    Awaiting,
    /// Over.
    Done,
}

impl Phase {
    /// Whether the request is still to be made.
    pub open spec fn before_request(self) -> bool {
        self == Phase::Disconnected || self == Phase::Dialing
    }

    /// Whether the request is still to be made.
    #[verifier::when_used_as_spec(before_request)]
    pub fn is_before_request(self) -> (before: bool)
        ensures
            before == self.before_request(),
    {
        match self {
            Phase::Disconnected => true,
            Phase::Dialing => true,
            _ => false,
        }
    }
}

} // verus!
