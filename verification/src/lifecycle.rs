//! The registration lifecycle as a state machine: what a node believes of
//! its link to the rendezvous point and of its registration there, and how
//! each event and each scheduling step changes that.
//!
//! This is the model that the behaviour is held to. It knows the rendezvous
//! point only by its text, and an action only by its kind.

use vstd::prelude::*;
use crate::event::EventView;
use crate::time::{renewal_deadline, Instant};

verus! {

/// What the node believes of its link to the rendezvous point.
#[derive(Clone, Copy, Debug, PartialEq, Eq, Structural)]
pub enum ConnectionStatus {
    /// No connection, and none asked for.
    Disconnected,
    /// A dial was asked for and has not been answered.
    Dialing,
    /// A connection stands.
    Connected,
}

/// Where the node stands with its registration.
#[derive(Clone, Copy, Debug, PartialEq, Eq, Structural)]
pub enum RegistrationStatus {
    /// Nothing was asked of the rendezvous point since the node started or
    /// since it last gave its registration up: the next connection brings a
    /// request.
    AwaitingConnection,
    /// A request to register is out and unanswered.
    Pending,
    /// The node is registered, and means to renew at `renew_at`.
    Registered { renew_at: Instant },
}

/// The two beliefs together.
#[derive(Clone, Copy, Debug, PartialEq, Eq, Structural)]
pub struct Lifecycle {
    pub connection: ConnectionStatus,
    pub registration: RegistrationStatus,
}

/// The kind of the one thing that a step asks the event loop to do.
#[derive(Clone, Copy, Debug, PartialEq, Eq, Structural)]
pub enum Decision {
    /// Nothing.
    Idle,
    /// Dial the rendezvous point.
    Dial,
    /// Ask the rendezvous point to register this node.
    Register,
}

/// One thing that happens to the state machine.
pub enum Input {
    /// The event loop passes in `event`, and its clock reads `now`.
    Event { event: EventView, now: Instant },
    /// The event loop asks for progress, and its clock reads `now`.
    Tick { now: Instant },
}

/// The state that a node starts in.
pub open spec fn initial() -> Lifecycle {
    Lifecycle {
        connection: ConnectionStatus::Disconnected,
        registration: RegistrationStatus::AwaitingConnection,
    }
}

/// A connection to the rendezvous point stands: the node is connected, and
/// asks to be registered if it was waiting for just that.
pub open spec fn after_connected(s: Lifecycle) -> (Lifecycle, Decision) {
    match s.registration {
        RegistrationStatus::AwaitingConnection => (
            Lifecycle {
                connection: ConnectionStatus::Connected,
                registration: RegistrationStatus::Pending,
            },
            Decision::Register,
        ),
        _ => (
            Lifecycle { connection: ConnectionStatus::Connected, registration: s.registration },
            Decision::Idle,
        ),
    }
}

/// The connection to the rendezvous point is gone, or could not be made.
/// The registration is left as it is; the next due step sees to it.
pub open spec fn after_disconnected(s: Lifecycle) -> Lifecycle {
    Lifecycle { connection: ConnectionStatus::Disconnected, registration: s.registration }
}

/// The rendezvous point granted `ttl` seconds at `now`.
pub open spec fn after_registered(s: Lifecycle, ttl: u64, now: Instant) -> Lifecycle {
    Lifecycle {
        connection: s.connection,
        registration: RegistrationStatus::Registered { renew_at: renewal_deadline(now, ttl) },
    }
}

/// Whether `event` tells of the link to the peer `target`: that it stands,
/// that it is gone, or that it could not be made.
pub open spec fn concerns_link(target: Seq<char>, event: EventView) -> bool {
    match event {
        EventView::ConnectionEstablished { peer } => peer == target,
        EventView::ConnectionClosed { peer, .. } => peer == target,
        EventView::DialFailure { peer } => peer == target,
        _ => false,
    }
}

/// Whether `event` answers a dial of the peer `target`: the connection
/// stands, or the dial failed.
pub open spec fn resolves_dial(target: Seq<char>, event: EventView) -> bool {
    match event {
        EventView::ConnectionEstablished { peer } => peer == target,
        EventView::DialFailure { peer } => peer == target,
        _ => false,
    }
}

/// What `event`, seen at `now`, makes of `s`, for a node whose rendezvous
/// point is `target`. Events about other peers change nothing; nor does a
/// refusal, nor an answer to a query.
pub open spec fn on_event(target: Seq<char>, s: Lifecycle, event: EventView, now: Instant) -> (
    Lifecycle,
    Decision,
) {
    match event {
        EventView::ConnectionEstablished { peer } => if peer == target {
            after_connected(s)
        } else {
            (s, Decision::Idle)
        },
        EventView::ConnectionClosed { peer, .. } => if peer == target {
            (after_disconnected(s), Decision::Idle)
        } else {
            (s, Decision::Idle)
        },
        EventView::DialFailure { peer } => if peer == target {
            (after_disconnected(s), Decision::Idle)
        } else {
            (s, Decision::Idle)
        },
        EventView::Registered { ttl, .. } => (after_registered(s, ttl, now), Decision::Idle),
        EventView::RegisterFailed { .. } => (s, Decision::Idle),
        EventView::Discovered { .. } => (s, Decision::Idle),
    }
}

/// The scheduling step at `now`: the whole table of what a node does on its
/// own account.
///
/// Waiting for a connection, it dials if it is disconnected and registers if
/// it finds itself connected. Registered and due for renewal, it registers
/// again if connected; disconnected, it gives the registration up and
/// dials. In every other state it waits.
pub open spec fn on_tick(s: Lifecycle, now: Instant) -> (Lifecycle, Decision) {
    match s.registration {
        RegistrationStatus::AwaitingConnection => match s.connection {
            ConnectionStatus::Disconnected => (
                Lifecycle {
                    connection: ConnectionStatus::Dialing,
                    registration: RegistrationStatus::AwaitingConnection,
                },
                Decision::Dial,
            ),
            ConnectionStatus::Dialing => (s, Decision::Idle),
            ConnectionStatus::Connected => (
                Lifecycle {
                    connection: ConnectionStatus::Connected,
                    registration: RegistrationStatus::Pending,
                },
                Decision::Register,
            ),
        },
        RegistrationStatus::Pending => (s, Decision::Idle),
        RegistrationStatus::Registered { renew_at } => if now.millis >= renew_at.millis {
            match s.connection {
                ConnectionStatus::Connected => (
                    Lifecycle {
                        connection: ConnectionStatus::Connected,
                        registration: RegistrationStatus::Pending,
                    },
                    Decision::Register,
                ),
                ConnectionStatus::Disconnected => (
                    Lifecycle {
                        connection: ConnectionStatus::Dialing,
                        registration: RegistrationStatus::AwaitingConnection,
                    },
                    Decision::Dial,
                ),
                ConnectionStatus::Dialing => (s, Decision::Idle),
            }
        } else {
            (s, Decision::Idle)
        },
    }
}

/// The instant at which a node in state `s` is next to be given a
/// scheduling step, when the clock reads `now` and no event comes first: its
/// renewal deadline, where that lies ahead. There is none where the node is
/// not registered, nor where the deadline has come.
pub open spec fn pending_deadline(s: Lifecycle, now: Instant) -> Option<Instant> {
    match s.registration {
        RegistrationStatus::Registered { renew_at } => if now.millis < renew_at.millis {
            Some(renew_at)
        } else {
            None
        },
        _ => None,
    }
}

/// What one input makes of `s`.
pub open spec fn step(target: Seq<char>, s: Lifecycle, input: Input) -> (Lifecycle, Decision) {
    match input {
        Input::Event { event, now } => on_event(target, s, event, now),
        Input::Tick { now } => on_tick(s, now),
    }
}

/// The state after all of `inputs`, in their order, starting from `s`.
pub open spec fn run(target: Seq<char>, s: Lifecycle, inputs: Seq<Input>) -> Lifecycle
    decreases inputs.len(),
{
    if inputs.len() == 0 {
        s
    } else {
        step(target, run(target, s, inputs.drop_last()), inputs.last()).0
    }
}

/// What the input at place `i` of `inputs` asks the event loop to do, where
/// the inputs before it came first and the start was `s`.
pub open spec fn decision_at(target: Seq<char>, s: Lifecycle, inputs: Seq<Input>, i: int)
    -> Decision
    recommends
        0 <= i < inputs.len(),
{
    step(target, run(target, s, inputs.take(i)), inputs[i]).1
}

} // verus!
