//! One connected client, as the room hands it out.

use std::sync::Arc;
use tokio::sync::mpsc::Receiver;
use vstd::prelude::*;

use crate::message::Message;

verus! {

/// A registered peer: the address it is registered under, the display name
/// it chose, and the receiving end of the queue that the room fills for it.
#[derive(Debug)]
pub struct Peer {
    pub name: String,
    pub addr: (u128, u16),
    pub receiver: Receiver<Arc<Message>>,
}

impl Peer {
    /// A peer of the three parts given.
    pub fn new(addr: (u128, u16), name: String, receiver: Receiver<Arc<Message>>) -> (peer: Peer)
        ensures
            peer.addr == addr,
            peer.name == name,
            peer.receiver == receiver,
    {
        Peer { name, addr, receiver }
    }
}

} // verus!
