//! Client side of a rendezvous service: the decisions of a node that keeps
//! one registration alive at a rendezvous point, or asks it once for the
//! peers of a namespace.
//!
//! Nothing here touches the network. The caller's event loop feeds in what
//! the connection layer and the protocol client report, and carries out the
//! one action that each call hands back.

pub mod action;
pub mod attempt;
pub mod behaviour;
pub mod discovery;
pub mod event;
pub mod identity;
pub mod laws;
pub mod lifecycle;
pub mod render;
pub mod session;
pub mod target;
pub mod time;
