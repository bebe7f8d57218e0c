//! What the connection layer and the protocol client report to the event
//! loop, which hands it on.

use vstd::prelude::*;
use crate::identity::{Address, PeerId};

verus! {

/// One registration that a rendezvous point holds.
#[derive(Clone, Debug, PartialEq, Eq)]
pub struct Registration {
    /// The registered peer.
    pub peer: PeerId,
    /// The addresses it registered.
    pub addresses: Vec<Address>,
    /// Seconds for which the registration is still valid.
    pub ttl: u64,
}

/// A registration, as contracts speak of it.
pub struct RegistrationView {
    pub peer: Seq<char>,
    pub addresses: Seq<Seq<char>>,
    pub ttl: u64,
}

/// The texts of `addresses`, in their order.
pub open spec fn address_texts(addresses: Seq<Address>) -> Seq<Seq<char>> {
    Seq::new(addresses.len(), |i: int| addresses[i]@)
}

impl View for Registration {
    type V = RegistrationView;

    open spec fn view(&self) -> RegistrationView {
        RegistrationView {
            peer: self.peer@,
            addresses: address_texts(self.addresses@),
            ttl: self.ttl,
        }
    }
}

/// The views of `registrations`, in their order.
pub open spec fn registration_views(registrations: Seq<Registration>) -> Seq<RegistrationView> {
    Seq::new(registrations.len(), |i: int| registrations[i]@)
}

/// Something that happened outside and that the event loop passes in.
#[derive(Clone, Debug, PartialEq, Eq)]
pub enum Event {
    /// A connection to `peer` stands.
    ConnectionEstablished { peer: PeerId },
    /// The connection to `peer` is gone, for `cause` if one is known.
    ConnectionClosed { peer: PeerId, cause: Option<String> },
    /// Dialing `peer` failed.
    DialFailure { peer: PeerId },
    /// `server_peer` registered this node in `namespace` for `ttl` seconds.
    Registered { namespace: String, ttl: u64, server_peer: PeerId },
    /// The rendezvous point refused to register this node.
    RegisterFailed { reason: String },
    /// The rendezvous point answered a query with `registrations`, and with
    /// a `cookie` to continue from.
    Discovered { registrations: Vec<Registration>, cookie: Vec<u8> },
}

/// An event, as contracts speak of it.
pub enum EventView {
    ConnectionEstablished { peer: Seq<char> },
    ConnectionClosed { peer: Seq<char>, cause: Option<Seq<char>> },
    DialFailure { peer: Seq<char> },
    Registered { namespace: Seq<char>, ttl: u64, server_peer: Seq<char> },
    RegisterFailed { reason: Seq<char> },
    Discovered { registrations: Seq<RegistrationView>, cookie: Seq<u8> },
}

impl View for Event {
    type V = EventView;

    open spec fn view(&self) -> EventView {
        match *self {
            Event::ConnectionEstablished { peer } => EventView::ConnectionEstablished {
                peer: peer@,
            },
            Event::ConnectionClosed { peer, cause } => EventView::ConnectionClosed {
                peer: peer@,
                cause: match cause {
                    Some(text) => Some(text@),
                    None => None,
                },
            },
            Event::DialFailure { peer } => EventView::DialFailure { peer: peer@ },
            Event::Registered { namespace, ttl, server_peer } => EventView::Registered {
                namespace: namespace@,
                ttl,
                server_peer: server_peer@,
            },
            Event::RegisterFailed { reason } => EventView::RegisterFailed { reason: reason@ },
            Event::Discovered { registrations, cookie } => EventView::Discovered {
                registrations: registration_views(registrations@),
                cookie: cookie@,
            },
        }
    }
}

} // verus!
