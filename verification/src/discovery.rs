//! A discovery session: one query to one rendezvous point for the peers of
//! one namespace. It dials, asks once when the connection stands, writes out
//! what the first answer holds, and is done; a failed dial ends it too.
//! Nothing is renewed and nothing is tried twice.

use vstd::prelude::*;
use crate::event::{Event, EventView, RegistrationView};
use crate::identity::{Address, PeerId};
use crate::render::{discovered_lines, line_texts, render_registrations};
use crate::session::Phase;
use crate::target::{RendezvousTarget, TargetView};

verus! {

/// The one thing that a discovery session asks the event loop to do.
#[derive(Clone, Debug, PartialEq, Eq)]
pub enum DiscoveryAction {
    /// Nothing.
    Idle,
    /// Dial `peer` at `address`.
    Dial { peer: PeerId, address: Address },
    /// Ask `server_peer` for the registrations in `namespace`, from `cookie`
    /// on and at most `limit` of them, where given.
    Discover {
        namespace: Option<String>,
        cookie: Option<Vec<u8>>,
        limit: Option<u32>,
        server_peer: PeerId,
    },
    /// Print `lines`, one for each registration discovered, and stop.
    Report { lines: Vec<String> },
    /// Say that `peer` could not be reached at `address`, and stop.
    Unreachable { peer: PeerId, address: Address },
}

/// A discovery action, as contracts speak of it.
pub enum DiscoveryActionView {
    Idle,
    Dial { peer: Seq<char>, address: Seq<char> },
    Discover {
        namespace: Option<Seq<char>>,
        cookie: Option<Seq<u8>>,
        limit: Option<u32>,
        server_peer: Seq<char>,
    },
    Report { lines: Seq<Seq<char>> },
    Unreachable { peer: Seq<char>, address: Seq<char> },
}

impl View for DiscoveryAction {
    type V = DiscoveryActionView;

    open spec fn view(&self) -> DiscoveryActionView {
        match *self {
            DiscoveryAction::Idle => DiscoveryActionView::Idle,
            DiscoveryAction::Dial { peer, address } => DiscoveryActionView::Dial {
                peer: peer@,
                address: address@,
            },
            DiscoveryAction::Discover {
                namespace,
                cookie,
                limit,
                server_peer,
            } => DiscoveryActionView::Discover {
                namespace: match namespace {
                    Some(text) => Some(text@),
                    None => None,
                },
                cookie: match cookie {
                    Some(bytes) => Some(bytes@),
                    None => None,
                },
                limit,
                server_peer: server_peer@,
            },
            DiscoveryAction::Report { lines } => DiscoveryActionView::Report {
                lines: line_texts(lines@),
            },
            DiscoveryAction::Unreachable { peer, address } => DiscoveryActionView::Unreachable {
                peer: peer@,
                address: address@,
            },
        }
    }
}

/// Starting: a session that has done nothing yet dials its rendezvous
/// point; any other waits.
pub open spec fn on_start(target: TargetView, phase: Phase) -> (
    Phase,
    DiscoveryActionView,
) {
    if phase == Phase::Disconnected {
        (
            Phase::Dialing,
            DiscoveryActionView::Dial { peer: target.peer, address: target.address },
        )
    } else {
        (phase, DiscoveryActionView::Idle)
    }
}

/// The one query of a session: all registrations in the target's namespace,
/// from the beginning and without a limit.
pub open spec fn query(target: TargetView) -> DiscoveryActionView {
    DiscoveryActionView::Discover {
        namespace: Some(target.namespace),
        cookie: None,
        limit: None,
        server_peer: target.peer,
    }
}

/// What `event` makes of a session in `phase`.
///
/// Until the query is out, word that the connection to the rendezvous point
/// stands brings the query, and word that the dial failed ends the session.
/// An answer ends a session that is not over, with one line for each
/// registration in it. Everything else, and everything after the end,
/// changes nothing.
pub open spec fn on_discovery_event(target: TargetView, phase: Phase, event: EventView)
    -> (Phase, DiscoveryActionView) {
    match event {
        EventView::ConnectionEstablished { peer } => if peer == target.peer && phase.before_request() {
            (Phase::Awaiting, query(target))
        } else {
            (phase, DiscoveryActionView::Idle)
        },
        EventView::DialFailure { peer } => if peer == target.peer && phase.before_request() {
            (
                Phase::Done,
                DiscoveryActionView::Unreachable { peer: target.peer, address: target.address },
            )
        } else {
            (phase, DiscoveryActionView::Idle)
        },
        EventView::Discovered { registrations, .. } => if phase != Phase::Done {
            (
                Phase::Done,
                DiscoveryActionView::Report { lines: discovered_lines(registrations) },
            )
        } else {
            (phase, DiscoveryActionView::Idle)
        },
        _ => (phase, DiscoveryActionView::Idle),
    }
}

/// One query to one rendezvous point.
#[derive(Debug)]
pub struct DiscoverySession {
    target: RendezvousTarget,
    phase: Phase,
}

/// A discovery session, as contracts speak of it.
pub struct DiscoverySessionView {
    pub target: TargetView,
    pub phase: Phase,
}

impl View for DiscoverySession {
    type V = DiscoverySessionView;

    closed spec fn view(&self) -> DiscoverySessionView {
        DiscoverySessionView { target: self.target@, phase: self.phase }
    }
}

impl DiscoverySession {
    /// A session that will ask `rendezvous_peer_id`, reachable at
    /// `rendezvous_address`, for the peers registered in `namespace`. It has
    /// done nothing yet.
    pub fn new(rendezvous_peer_id: PeerId, rendezvous_address: Address, namespace: String) -> (session:
        DiscoverySession)
        ensures
            session@.target == (TargetView {
                peer: rendezvous_peer_id@,
                address: rendezvous_address@,
                namespace: namespace@,
                ttl: None,
            }),
            session@.phase == Phase::Disconnected,
    {
        DiscoverySession {
            target: RendezvousTarget::new(rendezvous_peer_id, rendezvous_address, namespace, None),
            phase: Phase::Disconnected,
        }
    }

    /// The rendezvous point and the namespace to ask for.
    pub fn target(&self) -> (target: &RendezvousTarget)
        ensures
            target@ == self@.target,
    {
        &self.target
    }

    /// How far the session has come.
    pub fn phase(&self) -> (phase: Phase)
        ensures
            phase == self@.phase,
    {
        self.phase
    }

    /// Whether the session is over.
    pub fn is_done(&self) -> (done: bool)
        ensures
            done == (self@.phase == Phase::Done),
    {
        match self.phase {
            Phase::Done => true,
            _ => false,
        }
    }

    /// Starts the session: asks for the dial, if nothing was done yet.
    pub fn start(&mut self) -> (action: DiscoveryAction)
        ensures
            final(self)@.target == old(self)@.target,
            final(self)@.phase == on_start(old(self)@.target, old(self)@.phase).0,
            action@ == on_start(old(self)@.target, old(self)@.phase).1,
    {
        match self.phase {
            Phase::Disconnected => {
                self.phase = Phase::Dialing;
                DiscoveryAction::Dial {
                    peer: self.target.peer.clone(),
                    address: self.target.address.clone(),
                }
            },
            _ => DiscoveryAction::Idle,
        }
    }

    /// Takes in one event and hands back what it calls for.
    pub fn on_event(&mut self, event: &Event) -> (action: DiscoveryAction)
        ensures
            final(self)@.target == old(self)@.target,
            final(self)@.phase == on_discovery_event(
                old(self)@.target,
                old(self)@.phase,
                event@,
            ).0,
            action@ == on_discovery_event(old(self)@.target, old(self)@.phase, event@).1,
    {
        match event {
            Event::ConnectionEstablished { peer } => {
                if self.target.is_peer(peer) && self.phase.is_before_request() {
                    self.phase = Phase::Awaiting;
                    DiscoveryAction::Discover {
                        namespace: Some(self.target.namespace.clone()),
                        cookie: None,
                        limit: None,
                        server_peer: self.target.peer.clone(),
                    }
                } else {
                    DiscoveryAction::Idle
                }
            },
            Event::DialFailure { peer } => {
                if self.target.is_peer(peer) && self.phase.is_before_request() {
                    self.phase = Phase::Done;
                    DiscoveryAction::Unreachable {
                        peer: self.target.peer.clone(),
                        address: self.target.address.clone(),
                    }
                } else {
                    DiscoveryAction::Idle
                }
            },
            Event::Discovered { registrations, .. } => {
                if self.is_done() {
                    DiscoveryAction::Idle
                } else {
                    self.phase = Phase::Done;
                    DiscoveryAction::Report { lines: render_registrations(registrations) }
                }
            },
            _ => DiscoveryAction::Idle,
        }
    }
}

/// Discovery ends. Whatever the session has done so far, short of having its
/// query out: when the connection to the rendezvous point stands it sends
/// its one query, and the answer then brings exactly one line for each
/// registration in it, in their order, and ends the session. Word that the
/// dial failed, in place of the connection, ends it with no line at all.
/// Once over, a session stays over and asks for nothing, whatever comes.
pub proof fn law_discovery_terminates(
    target: TargetView,
    phase: Phase,
    registrations: Seq<RegistrationView>,
    cookie: Seq<u8>,
    later: EventView,
)
    requires
        phase == Phase::Disconnected || phase == Phase::Dialing,
    ensures
        ({
            let connected = on_discovery_event(
                target,
                phase,
                EventView::ConnectionEstablished { peer: target.peer },
            );
            let answered = on_discovery_event(
                target,
                connected.0,
                EventView::Discovered { registrations, cookie },
            );
            let failed = on_discovery_event(
                target,
                phase,
                EventView::DialFailure { peer: target.peer },
            );
            &&& connected == (Phase::Awaiting, query(target))
            &&& answered.0 == Phase::Done
            &&& answered.1 == DiscoveryActionView::Report { lines: discovered_lines(registrations) }
            &&& discovered_lines(registrations).len() == registrations.len()
            &&& failed.0 == Phase::Done
            &&& failed.1 == DiscoveryActionView::Unreachable {
                peer: target.peer,
                address: target.address,
            }
            &&& on_discovery_event(target, Phase::Done, later) == (
                Phase::Done,
                DiscoveryActionView::Idle,
            )
            &&& on_start(target, Phase::Done) == (
                Phase::Done,
                DiscoveryActionView::Idle,
            )
        }),
{
}

} // verus!
