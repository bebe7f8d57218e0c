//! The behaviour of a node that keeps itself registered at one rendezvous
//! point: it dials the point, registers on connecting, renews at half the
//! granted time-to-live, and starts over when the link was lost by then.

use vstd::prelude::*;
use crate::action::{action_for, Action};
use crate::event::Event;
use crate::identity::{Address, PeerId};
use crate::lifecycle::{
    after_connected, after_disconnected, after_registered, initial, on_event, on_tick,
    pending_deadline, ConnectionStatus, Decision, Lifecycle, RegistrationStatus,
};
use crate::target::{RendezvousTarget, TargetView};
use crate::time::Instant;

verus! {

/// A node's registration with one rendezvous point: the target, fixed for
/// good, and the state of the lifecycle.
///
/// The event loop passes every event to [`Behaviour::on_event`] and then
/// calls [`Behaviour::tick`]; it calls `tick` too when the clock reaches
/// [`Behaviour::wake_at`]. Each call hands back at most one action, which
/// the loop carries out.
#[derive(Debug)]
pub struct Behaviour {
    target: RendezvousTarget,
    state: Lifecycle,
}

/// A behaviour, as contracts speak of it.
pub struct BehaviourView {
    pub target: TargetView,
    pub state: Lifecycle,
}

impl View for Behaviour {
    type V = BehaviourView;

    closed spec fn view(&self) -> BehaviourView {
        BehaviourView { target: self.target@, state: self.state }
    }
}

impl Behaviour {
    /// A behaviour for the rendezvous point `rendezvous_peer_id`, reachable
    /// at `rendezvous_address`, that registers in `namespace` and asks for
    /// `registration_ttl` seconds, if given. It starts disconnected, with
    /// nothing asked of the rendezvous point.
    pub fn new(
        rendezvous_peer_id: PeerId,
        rendezvous_address: Address,
        namespace: String,
        registration_ttl: Option<u64>,
    ) -> (behaviour: Behaviour)
        ensures
            behaviour@.target == (TargetView {
                peer: rendezvous_peer_id@,
                address: rendezvous_address@,
                namespace: namespace@,
                ttl: registration_ttl,
            }),
            behaviour@.state == initial(),
    {
        Behaviour {
            target: RendezvousTarget::new(
                rendezvous_peer_id,
                rendezvous_address,
                namespace,
                registration_ttl,
            ),
            state: Lifecycle {
                connection: ConnectionStatus::Disconnected,
                registration: RegistrationStatus::AwaitingConnection,
            },
        }
    }

    /// The rendezvous point and what to ask of it.
    pub fn target(&self) -> (target: &RendezvousTarget)
        ensures
            target@ == self@.target,
    {
        &self.target
    }

    /// What the node believes of its link to the rendezvous point.
    pub fn connection_status(&self) -> (status: ConnectionStatus)
        ensures
            status == self@.state.connection,
    {
        self.state.connection
    }

    /// Where the node stands with its registration.
    pub fn registration_status(&self) -> (status: RegistrationStatus)
        ensures
            status == self@.state.registration,
    {
        self.state.registration
    }

    /// When the node means to renew: the instant at which the event loop
    /// owes it a `tick`. `None` while it is not registered.
    pub fn renew_at(&self) -> (deadline: Option<Instant>)
        ensures
            deadline == (match self@.state.registration {
                RegistrationStatus::Registered { renew_at } => Some(renew_at),
                _ => None,
            }),
    {
        match self.state.registration {
            RegistrationStatus::Registered { renew_at } => Some(renew_at),
            _ => None,
        }
    }

    /// When the event loop is to call `tick` next if no event comes first,
    /// given that its clock reads `now`: at the renewal deadline, where it
    /// lies ahead. `None` tells the loop to wait for an event: the node is
    /// not registered, or the deadline has come and a `tick` at `now` has
    /// done what there was to do.
    pub fn wake_at(&self, now: Instant) -> (deadline: Option<Instant>)
        ensures
            deadline == pending_deadline(self@.state, now),
    {
        match self.state.registration {
            RegistrationStatus::Registered { renew_at } => {
                if now.has_reached(renew_at) {
                    None
                } else {
                    Some(renew_at)
                }
            },
            _ => None,
        }
    }

    /// The addresses at which `peer` can be dialed: the rendezvous point's
    /// one address if `peer` is the rendezvous point, none for any other.
    pub fn addresses_of_peer(&self, peer: &PeerId) -> (addresses: Vec<Address>)
        ensures
            peer@ == self@.target.peer ==> addresses@.len() == 1 && addresses@[0]@
                == self@.target.address,
            peer@ != self@.target.peer ==> addresses@.len() == 0,
    {
        let mut addresses: Vec<Address> = Vec::new();
        if self.target.is_peer(peer) {
            addresses.push(self.target.address.clone());
        }
        addresses
    }

    /// The request to dial the rendezvous point.
    fn dial(&self) -> (action: Action)
        ensures
            action@ == action_for(self@.target, Decision::Dial),
    {
        Action::Dial { peer: self.target.peer.clone(), address: self.target.address.clone() }
    }

    /// The request to register with the rendezvous point.
    fn register(&self) -> (action: Action)
        ensures
            action@ == action_for(self@.target, Decision::Register),
    {
        Action::Register {
            namespace: self.target.namespace.clone(),
            server_peer: self.target.peer.clone(),
            ttl: self.target.ttl,
        }
    }

    /// A connection to `peer` stands. If `peer` is the rendezvous point the
    /// node is connected from now on, and asks to be registered if it was
    /// waiting for a connection; with a request out, or registered, it asks
    /// nothing. A connection to any other peer changes nothing.
    pub fn on_connected(&mut self, peer: &PeerId) -> (action: Action)
        ensures
            final(self)@.target == old(self)@.target,
            peer@ == old(self)@.target.peer ==> final(self)@.state == after_connected(
                old(self)@.state,
            ).0 && action@ == action_for(
                old(self)@.target,
                after_connected(old(self)@.state).1,
            ),
            peer@ != old(self)@.target.peer ==> final(self)@.state == old(self)@.state && action@
                == action_for(old(self)@.target, Decision::Idle),
    {
        if self.target.is_peer(peer) {
            self.state.connection = ConnectionStatus::Connected;
            match self.state.registration {
                RegistrationStatus::AwaitingConnection => {
                    self.state.registration = RegistrationStatus::Pending;
                    self.register()
                },
                RegistrationStatus::Registered { .. } => Action::Idle,
                RegistrationStatus::Pending => Action::Idle,
            }
        } else {
            Action::Idle
        }
    }

    /// The connection to `peer` is gone. If `peer` is the rendezvous point
    /// the node is disconnected from now on; its registration status stays
    /// as it is until the next due `tick`.
    pub fn on_disconnected(&mut self, peer: &PeerId)
        ensures
            final(self)@.target == old(self)@.target,
            final(self)@.state == (if peer@ == old(self)@.target.peer {
                after_disconnected(old(self)@.state)
            } else {
                old(self)@.state
            }),
    {
        if self.target.is_peer(peer) {
            self.state.connection = ConnectionStatus::Disconnected;
        }
    }

    /// Dialing `peer` failed. If `peer` is the rendezvous point the node is
    /// disconnected again, and a later `tick` dials anew.
    pub fn on_dial_failure(&mut self, peer: &PeerId)
        ensures
            final(self)@.target == old(self)@.target,
            final(self)@.state == (if peer@ == old(self)@.target.peer {
                after_disconnected(old(self)@.state)
            } else {
                old(self)@.state
            }),
    {
        if self.target.is_peer(peer) {
            self.state.connection = ConnectionStatus::Disconnected;
        }
    }

    /// The rendezvous point granted `ttl` seconds, and the clock reads
    /// `now`: the node is registered and means to renew half that time from
    /// now, which supersedes any earlier deadline.
    pub fn on_registered(&mut self, ttl: u64, now: Instant)
        ensures
            final(self)@.target == old(self)@.target,
            final(self)@.state == after_registered(old(self)@.state, ttl, now),
    {
        self.state.registration = RegistrationStatus::Registered {
            renew_at: now.renewal_after(ttl),
        };
    }

    /// The rendezvous point refused. Nothing changes: the request counts as
    /// unanswered, and the node does not ask again on its own account.
    pub fn on_register_failed(&mut self)
        ensures
            *final(self) == *old(self),
    {
    }

    /// Takes in one event, seen at `now`, and hands back what it calls for.
    pub fn on_event(&mut self, event: &Event, now: Instant) -> (action: Action)
        ensures
            final(self)@.target == old(self)@.target,
            final(self)@.state == on_event(old(self)@.target.peer, old(self)@.state, event@, now).0,
            action@ == action_for(
                old(self)@.target,
                on_event(old(self)@.target.peer, old(self)@.state, event@, now).1,
            ),
    {
        match event {
            Event::ConnectionEstablished { peer } => self.on_connected(peer),
            Event::ConnectionClosed { peer, .. } => {
                self.on_disconnected(peer);
                Action::Idle
            },
            Event::DialFailure { peer } => {
                self.on_dial_failure(peer);
                Action::Idle
            },
            Event::Registered { ttl, .. } => {
                self.on_registered(*ttl, now);
                Action::Idle
            },
            Event::RegisterFailed { .. } => {
                self.on_register_failed();
                Action::Idle
            },
            Event::Discovered { .. } => Action::Idle,
        }
    }

    /// The scheduling step at `now`: decides whether to dial, to register,
    /// or to wait, by the table of [`on_tick`].
    pub fn tick(&mut self, now: Instant) -> (action: Action)
        ensures
            final(self)@.target == old(self)@.target,
            final(self)@.state == on_tick(old(self)@.state, now).0,
            action@ == action_for(old(self)@.target, on_tick(old(self)@.state, now).1),
    {
        match self.state.registration {
            RegistrationStatus::AwaitingConnection => match self.state.connection {
                ConnectionStatus::Disconnected => {
                    self.state.connection = ConnectionStatus::Dialing;
                    self.dial()
                },
                ConnectionStatus::Dialing => Action::Idle,
                ConnectionStatus::Connected => {
                    self.state.registration = RegistrationStatus::Pending;
                    self.register()
                },
            },
            RegistrationStatus::Registered { renew_at } => {
                if now.has_reached(renew_at) {
                    match self.state.connection {
                        ConnectionStatus::Connected => {
                            self.state.registration = RegistrationStatus::Pending;
                            self.register()
                        },
                        ConnectionStatus::Disconnected => {
                            self.state.registration = RegistrationStatus::AwaitingConnection;
                            self.state.connection = ConnectionStatus::Dialing;
                            self.dial()
                        },
                        ConnectionStatus::Dialing => Action::Idle,
                    }
                } else {
                    Action::Idle
                }
            },
            RegistrationStatus::Pending => Action::Idle,
        }
    }
}

} // verus!
