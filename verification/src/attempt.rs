//! A registration attempt: one request to one rendezvous point, with no
//! renewal and no second try. It dials, asks to be registered when the
//! connection stands, and is over with the first answer, grant or refusal.

use vstd::prelude::*;
use crate::action::{action_for, Action};
use crate::event::{Event, EventView};
use crate::identity::{Address, PeerId};
use crate::lifecycle::Decision;
use crate::session::Phase;
use crate::target::{RendezvousTarget, TargetView};

verus! {

/// Starting: an attempt that has done nothing yet dials its rendezvous
/// point; any other waits.
pub open spec fn on_attempt_start(phase: Phase) -> (Phase, Decision) {
    if phase == Phase::Disconnected {
        (Phase::Dialing, Decision::Dial)
    } else {
        (phase, Decision::Idle)
    }
}

/// What `event` makes of an attempt in `phase` at the peer `target`.
///
/// Until the request is out, word that the connection to the rendezvous
/// point stands brings the request. A grant or a refusal ends an attempt
/// that is not over. Everything else, and everything after the end, changes
/// nothing.
pub open spec fn on_attempt_event(target: Seq<char>, phase: Phase, event: EventView) -> (
    Phase,
    Decision,
) {
    match event {
        EventView::ConnectionEstablished { peer } => if peer == target && phase.before_request() {
            (Phase::Awaiting, Decision::Register)
        } else {
            (phase, Decision::Idle)
        },
        EventView::Registered { .. } => (Phase::Done, Decision::Idle),
        EventView::RegisterFailed { .. } => (Phase::Done, Decision::Idle),
        _ => (phase, Decision::Idle),
    }
}

/// One request to be registered at one rendezvous point.
#[derive(Debug)]
pub struct RegistrationAttempt {
    target: RendezvousTarget,
    phase: Phase,
}

/// A registration attempt, as contracts speak of it.
pub struct RegistrationAttemptView {
    pub target: TargetView,
    pub phase: Phase,
}

impl View for RegistrationAttempt {
    type V = RegistrationAttemptView;

    closed spec fn view(&self) -> RegistrationAttemptView {
        RegistrationAttemptView { target: self.target@, phase: self.phase }
    }
}

impl RegistrationAttempt {
    /// An attempt to register in `namespace` at `rendezvous_peer_id`,
    /// reachable at `rendezvous_address`, for `registration_ttl` seconds if
    /// given. It has done nothing yet.
    pub fn new(
        rendezvous_peer_id: PeerId,
        rendezvous_address: Address,
        namespace: String,
        registration_ttl: Option<u64>,
    ) -> (attempt: RegistrationAttempt)
        ensures
            attempt@.target == (TargetView {
                peer: rendezvous_peer_id@,
                address: rendezvous_address@,
                namespace: namespace@,
                ttl: registration_ttl,
            }),
            attempt@.phase == Phase::Disconnected,
    {
        RegistrationAttempt {
            target: RendezvousTarget::new(
                rendezvous_peer_id,
                rendezvous_address,
                namespace,
                registration_ttl,
            ),
            phase: Phase::Disconnected,
        }
    }

    /// The rendezvous point and what to ask of it.
    pub fn target(&self) -> (target: &RendezvousTarget)
        ensures
            target@ == self@.target,
    {
        &self.target
    }

    /// How far the attempt has come.
    pub fn phase(&self) -> (phase: Phase)
        ensures
            phase == self@.phase,
    {
        self.phase
    }

    /// Whether the attempt is over.
    pub fn is_done(&self) -> (done: bool)
        ensures
            done == (self@.phase == Phase::Done),
    {
        match self.phase {
            Phase::Done => true,
            _ => false,
        }
    }

    /// Starts the attempt: asks for the dial, if nothing was done yet.
    pub fn start(&mut self) -> (action: Action)
        ensures
            final(self)@.target == old(self)@.target,
            final(self)@.phase == on_attempt_start(old(self)@.phase).0,
            action@ == action_for(old(self)@.target, on_attempt_start(old(self)@.phase).1),
    {
        match self.phase {
            Phase::Disconnected => {
                self.phase = Phase::Dialing;
                Action::Dial {
                    peer: self.target.peer.clone(),
                    address: self.target.address.clone(),
                }
            },
            _ => Action::Idle,
        }
    }

    /// Takes in one event and hands back what it calls for.
    pub fn on_event(&mut self, event: &Event) -> (action: Action)
        ensures
            final(self)@.target == old(self)@.target,
            final(self)@.phase == on_attempt_event(
                old(self)@.target.peer,
                old(self)@.phase,
                event@,
            ).0,
            action@ == action_for(
                old(self)@.target,
                on_attempt_event(old(self)@.target.peer, old(self)@.phase, event@).1,
            ),
    {
        match event {
            Event::ConnectionEstablished { peer } => {
                if self.target.is_peer(peer) && self.phase.is_before_request() {
                    self.phase = Phase::Awaiting;
                    Action::Register {
                        namespace: self.target.namespace.clone(),
                        server_peer: self.target.peer.clone(),
                        ttl: self.target.ttl,
                    }
                } else {
                    Action::Idle
                }
            },
            Event::Registered { .. } => {
                self.phase = Phase::Done;
                Action::Idle
            },
            Event::RegisterFailed { .. } => {
                self.phase = Phase::Done;
                Action::Idle
            },
            _ => Action::Idle,
        }
    }
}

} // verus!
