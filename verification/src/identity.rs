//! Who a peer is and where it can be reached, in the textual forms that
//! peers and addresses are written and printed in.

use vstd::prelude::*;

verus! {

/// The identity of a peer, in its canonical textual form. Two peers are the
/// same peer exactly if their texts are the same.
#[derive(Debug, PartialEq, Eq, Hash)]
pub struct PeerId {
    pub text: String,
}

impl View for PeerId {
    type V = Seq<char>;

    open spec fn view(&self) -> Seq<char> {
        self.text@
    }
}

impl Clone for PeerId {
    fn clone(&self) -> (copy: Self)
        ensures
            copy == *self,
    {
        PeerId { text: self.text.clone() }
    }
}

impl PeerId {
    /// The peer that `text` names.
    pub fn new(text: String) -> (peer: PeerId)
        ensures
            peer@ == text@,
            peer.text == text,
    {
        PeerId { text }
    }

    /// The text that names this peer.
    pub fn as_str(&self) -> (text: &str)
        ensures
            text@ == self@,
    {
        self.text.as_str()
    }

    /// Whether `other` is this very peer.
    pub fn same_as(&self, other: &PeerId) -> (same: bool)
        ensures
            same == (self@ == other@),
    {
        self.text == other.text
    }
}

/// A network address, in its canonical textual form.
#[derive(Debug, PartialEq, Eq, Hash)]
pub struct Address {
    pub text: String,
}

impl View for Address {
    type V = Seq<char>;

    open spec fn view(&self) -> Seq<char> {
        self.text@
    }
}

impl Clone for Address {
    fn clone(&self) -> (copy: Self)
        ensures
            copy == *self,
    {
        Address { text: self.text.clone() }
    }
}

impl Address {
    /// The address that `text` writes out.
    pub fn new(text: String) -> (address: Address)
        ensures
            address@ == text@,
            address.text == text,
    {
        Address { text }
    }

    /// The text of this address.
    pub fn as_str(&self) -> (text: &str)
        ensures
            text@ == self@,
    {
        self.text.as_str()
    }

    /// Whether `other` is this very address.
    pub fn same_as(&self, other: &Address) -> (same: bool)
        ensures
            same == (self@ == other@),
    {
        self.text == other.text
    }
}

} // verus!
