//! The concurrent map that holds the room's peers, as far as the room uses it.
//!
//! Everything in this file is believed of the `dashmap` crate, not proved.
//! The map is only ever reached through an exclusive borrow or a shared
//! borrow of the room that owns it, so what it holds is a function of its
//! value.

use dashmap::DashMap;
use std::sync::Arc;
use tokio::sync::mpsc::Sender;
use vstd::prelude::*;

use crate::message::Message;

verus! {

/// `dashmap::DashMap`, opaque to the verifier.
#[verifier::external_type_specification]
#[verifier::external_body]
#[verifier::reject_recursive_types(K)]
#[verifier::reject_recursive_types(V)]
#[verifier::reject_recursive_types(S)]
pub struct ExDashMap<K, V, S>(DashMap<K, V, S>);

/// The addresses that are keys of `peers`.
pub uninterp spec fn registered(peers: DashMap<(u128, u16), Sender<Arc<Message>>>) -> Set<
    (u128, u16),
>;

/// `DashMap::new`: a map without entries.
#[verifier::external_body]
pub(crate) fn registry_new() -> (peers: DashMap<(u128, u16), Sender<Arc<Message>>>)
    ensures
        registered(peers) == Set::<(u128, u16)>::empty(),
{
    DashMap::new()
}

/// `DashMap::insert`: afterwards `addr` is a key, whether or not it was one
/// before, and no other key has come or gone.
#[verifier::external_body]
pub(crate) fn registry_insert(
    peers: &mut DashMap<(u128, u16), Sender<Arc<Message>>>,
    addr: (u128, u16),
    outbox: Sender<Arc<Message>>,
)
    ensures
        registered(*final(peers)) == registered(*old(peers)).insert(addr),
{
    peers.insert(addr, outbox);
}

/// `DashMap::remove`: afterwards `addr` is no key, no other key has come or
/// gone, and the result says whether `addr` was a key.
#[verifier::external_body]
pub(crate) fn registry_remove(
    peers: &mut DashMap<(u128, u16), Sender<Arc<Message>>>,
    addr: (u128, u16),
) -> (removed: bool)
    ensures
        registered(*final(peers)) == registered(*old(peers)).remove(addr),
        removed == registered(*old(peers)).contains(addr),
{
    peers.remove(&addr).is_some()
}

/// `DashMap::get`: an entry is found exactly for a key of the map. What is
/// handed out is a clone of the sender that the entry holds.
#[verifier::external_body]
pub(crate) fn registry_get(
    peers: &DashMap<(u128, u16), Sender<Arc<Message>>>,
    addr: (u128, u16),
) -> (found: Option<Sender<Arc<Message>>>)
    ensures
        found.is_some() == registered(*peers).contains(addr),
{
    peers.get(&addr).map(|entry| entry.value().clone())
}

/// `DashMap::len`: the number of keys.
#[verifier::external_body]
pub(crate) fn registry_len(peers: &DashMap<(u128, u16), Sender<Arc<Message>>>) -> (n: usize)
    ensures
        n == registered(*peers).len(),
{
    peers.len()
}

/// `DashMap::iter`: every entry of the map once, in an order that the map
/// does not promise. Each key comes with a clone of its sender.
#[verifier::external_body]
pub(crate) fn registry_entries(peers: &DashMap<(u128, u16), Sender<Arc<Message>>>) -> (entries: Vec<
    ((u128, u16), Sender<Arc<Message>>),
>)
    ensures
        forall|i: int, j: int|
            0 <= i < j < entries@.len() ==> (#[trigger] entries@[i]).0 != (#[trigger] entries@[j]).0,
        forall|i: int|
            0 <= i < entries@.len() ==> registered(*peers).contains((#[trigger] entries@[i]).0),
        forall|addr: (u128, u16)| #[trigger]
            registered(*peers).contains(addr) ==> exists|i: int|
                0 <= i < entries@.len() && (#[trigger] entries@[i]).0 == addr,
{
    peers.iter().map(|entry| (*entry.key(), entry.value().clone())).collect()
}

} // verus!
