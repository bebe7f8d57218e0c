//! The rendezvous point that a node registers with.

use vstd::prelude::*;
use crate::identity::{Address, PeerId};

verus! {

/// Where and how to register: fixed when a behaviour is made, never changed
/// after.
#[derive(Debug, PartialEq, Eq)]
pub struct RendezvousTarget {
    /// The rendezvous point.
    pub peer: PeerId,
    /// The address to dial it at.
    pub address: Address,
    /// The namespace to register in.
    pub namespace: String,
    /// The time-to-live to ask for, in seconds; `None` leaves the choice to
    /// the rendezvous point.
    pub ttl: Option<u64>,
}

/// A target, as contracts speak of it.
pub struct TargetView {
    pub peer: Seq<char>,
    pub address: Seq<char>,
    pub namespace: Seq<char>,
    pub ttl: Option<u64>,
}

impl View for RendezvousTarget {
    type V = TargetView;

    open spec fn view(&self) -> TargetView {
        TargetView {
            peer: self.peer@,
            address: self.address@,
            namespace: self.namespace@,
            ttl: self.ttl,
        }
    }
}

impl Clone for RendezvousTarget {
    fn clone(&self) -> (copy: Self)
        ensures
            copy == *self,
    {
        RendezvousTarget {
            peer: self.peer.clone(),
            address: self.address.clone(),
            namespace: self.namespace.clone(),
            ttl: self.ttl,
        }
    }
}

impl RendezvousTarget {
    /// The target made of these four.
    pub fn new(peer: PeerId, address: Address, namespace: String, ttl: Option<u64>) -> (target:
        RendezvousTarget)
        ensures
            target.peer == peer,
            target.address == address,
            target.namespace == namespace,
            target.ttl == ttl,
    {
        RendezvousTarget { peer, address, namespace, ttl }
    }

    /// Whether `peer` is the rendezvous point.
    pub fn is_peer(&self, peer: &PeerId) -> (is: bool)
        ensures
            is == (peer@ == self@.peer),
    {
        self.peer.same_as(peer)
    }
}

} // verus!
