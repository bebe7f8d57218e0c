//! What a behaviour asks the event loop to do.

use vstd::prelude::*;
use crate::identity::{Address, PeerId};
use crate::lifecycle::Decision;
use crate::target::TargetView;

verus! {

/// The one thing that a call asks the event loop to do.
#[derive(Clone, Debug, PartialEq, Eq)]
pub enum Action {
    /// Nothing.
    Idle,
    /// Dial `peer` at `address`.
    Dial { peer: PeerId, address: Address },
    /// Ask `server_peer` to register this node in `namespace`, for `ttl`
    /// seconds if one is given.
    Register { namespace: String, server_peer: PeerId, ttl: Option<u64> },
}

/// An action, as contracts speak of it.
pub enum ActionView {
    Idle,
    Dial { peer: Seq<char>, address: Seq<char> },
    Register { namespace: Seq<char>, server_peer: Seq<char>, ttl: Option<u64> },
}

impl View for Action {
    type V = ActionView;

    open spec fn view(&self) -> ActionView {
        match *self {
            Action::Idle => ActionView::Idle,
            Action::Dial { peer, address } => ActionView::Dial { peer: peer@, address: address@ },
            Action::Register { namespace, server_peer, ttl } => ActionView::Register {
                namespace: namespace@,
                server_peer: server_peer@,
                ttl,
            },
        }
    }
}

/// The action of the kind `decision` for a node whose rendezvous point is
/// `target`: a dial goes to the target's peer at its address, and a request
/// names the target's namespace, its peer and the time-to-live to ask for.
pub open spec fn action_for(target: TargetView, decision: Decision) -> ActionView {
    match decision {
        Decision::Idle => ActionView::Idle,
        Decision::Dial => ActionView::Dial { peer: target.peer, address: target.address },
        Decision::Register => ActionView::Register {
            namespace: target.namespace,
            server_peer: target.peer,
            ttl: target.ttl,
        },
    }
}

impl Action {
    /// The kind of this action.
    pub fn decision(&self) -> (decision: Decision)
        ensures
            decision == (match self@ {
                ActionView::Idle => Decision::Idle,
                ActionView::Dial { .. } => Decision::Dial,
                ActionView::Register { .. } => Decision::Register,
            }),
    {
        match self {
            Action::Idle => Decision::Idle,
            Action::Dial { .. } => Decision::Dial,
            Action::Register { .. } => Decision::Register,
        }
    }
}

} // verus!
