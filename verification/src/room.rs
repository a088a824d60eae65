//! The room: who is registered, and who is offered each event.
//!
//! A broadcast offers the event to each recipient's queue without waiting. A
//! queue that is full, or whose peer is gone, does not take it: the event is
//! dropped for that peer alone, the report says so, and the other peers are
//! served all the same. The room itself is therefore never held up by a slow
//! peer. A server that wants a full queue to hold the broadcaster back
//! instead takes the outbox of each peer that the report names as missed,
//! and waits there.

use dashmap::DashMap;
use std::sync::Arc;
use tokio::sync::mpsc::Sender;
use vstd::prelude::*;

use crate::message::{Event, Message};
use crate::peer::Peer;
use crate::queue::{offer, open_queue};
use crate::registry::{
    registered, registry_entries, registry_get, registry_insert, registry_len, registry_new,
    registry_remove,
};

verus! {

/// The number of events that a peer's queue holds before it takes no more.
pub const MAX_MESSAGES: usize = 128;

/// What became of one event at one recipient.
#[derive(Debug, Clone, Copy)]
pub struct Delivery {
    /// The address of the recipient.
    pub to: (u128, u16),
    /// Whether the recipient's queue took the event.
    pub accepted: bool,
}

/// An event that the room sent out by itself, and what became of it.
#[derive(Debug)]
pub struct Broadcast {
    pub message: Arc<Message>,
    pub report: Vec<Delivery>,
}

/// The peers that a broadcast from `from` goes to: all members but `from`.
pub open spec fn recipients(members: Set<(u128, u16)>, from: (u128, u16)) -> Set<(u128, u16)> {
    members.remove(from)
}

/// The members after a peer has joined under `addr`.
pub open spec fn after_join(members: Set<(u128, u16)>, addr: (u128, u16)) -> Set<(u128, u16)> {
    members.insert(addr)
}

/// The members after the peer under `addr` has left.
pub open spec fn after_leave(members: Set<(u128, u16)>, addr: (u128, u16)) -> Set<(u128, u16)> {
    members.remove(addr)
}

/// Whether a leave of `addr` is announced to the others: only a member's is.
pub open spec fn leave_announced(members: Set<(u128, u16)>, addr: (u128, u16)) -> bool {
    members.contains(addr)
}

/// The members after one peer has joined under each address of `addrs`, in
/// that order.
pub open spec fn after_joins(members: Set<(u128, u16)>, addrs: Seq<(u128, u16)>) -> Set<
    (u128, u16),
>
    decreases addrs.len(),
{
    if addrs.len() == 0 {
        members
    } else {
        after_join(after_joins(members, addrs.drop_last()), addrs.last())
    }
}

/// Whether `report` holds one delivery for each address in `targets` and
/// none besides.
pub open spec fn reaches(report: Seq<Delivery>, targets: Set<(u128, u16)>) -> bool {
    &&& forall|i: int| 0 <= i < report.len() ==> targets.contains((#[trigger] report[i]).to)
    &&& forall|addr: (u128, u16)| #[trigger]
        targets.contains(addr) ==> exists|i: int|
            0 <= i < report.len() && (#[trigger] report[i]).to == addr
    &&& forall|i: int, j: int|
        0 <= i < j < report.len() ==> (#[trigger] report[i]).to != (#[trigger] report[j]).to
}

/// The registry of the peers that are connected.
#[derive(Debug)]
pub struct ChatRoom {
    peers: DashMap<(u128, u16), Sender<Arc<Message>>>,
}

impl Default for ChatRoom {
    /// A room without members.
    fn default() -> (room: ChatRoom)
        ensures
            room.wf(),
            room.members() == Set::<(u128, u16)>::empty(),
    {
        ChatRoom { peers: registry_new() }
    }
}

impl ChatRoom {
    /// The addresses of the registered peers.
    pub closed spec fn members(&self) -> Set<(u128, u16)> {
        registered(self.peers)
    }

    /// A room has finitely many members.
    pub open spec fn wf(&self) -> bool {
        self.members().finite()
    }

    /// A room without members.
    pub fn new() -> (room: ChatRoom)
        ensures
            room.wf(),
            room.members() == Set::<(u128, u16)>::empty(),
    {
        ChatRoom::default()
    }

    /// The number of registered peers.
    pub fn len(&self) -> (n: usize)
        requires
            self.wf(),
        ensures
            n == self.members().len(),
    {
        registry_len(&self.peers)
    }

    /// Whether a peer is registered under `addr`.
    pub fn contains(&self, addr: (u128, u16)) -> (held: bool)
        ensures
            held == self.members().contains(addr),
    {
        self.outbox(addr).is_some()
    }

    /// The sending end of the queue of the peer under `addr`, for a caller
    /// that would rather wait for room in a full queue than have an event
    /// dropped. There is none exactly where no peer is registered under
    /// `addr`.
    pub fn outbox(&self, addr: (u128, u16)) -> (found: Option<Sender<Arc<Message>>>)
        ensures
            found.is_some() == self.members().contains(addr),
    {
        registry_get(&self.peers, addr)
    }

    /// Registers a new queue under `addr`, offers `Join(name)` to every
    /// other member, and hands out the peer that holds the receiving end.
    pub fn join(&mut self, addr: (u128, u16), name: String) -> (joined: (Peer, Broadcast))
        requires
            old(self).wf(),
        ensures
            final(self).wf(),
            final(self).members() == after_join(old(self).members(), addr),
            joined.0.addr == addr,
            joined.0.name@ == name@,
            joined.1.message@ == Event::Join(name@),
            reaches(joined.1.report@, recipients(final(self).members(), addr)),
    {
        let (outbox, inbox) = open_queue(MAX_MESSAGES);
        registry_insert(&mut self.peers, addr, outbox);
        let message = Arc::new(Message::join(name.as_str()));
        let report = self.broadcast(addr, &message);
        (Peer::new(addr, name, inbox), Broadcast { message, report })
    }

    /// Takes `addr` out of the registry and offers `Leave(name)` to every
    /// member that is left. Where no peer is registered under `addr`,
    /// nothing changes and nothing is sent.
    pub fn leave(&mut self, addr: (u128, u16), name: String) -> (left: Option<Broadcast>)
        requires
            old(self).wf(),
        ensures
            final(self).wf(),
            final(self).members() == after_leave(old(self).members(), addr),
            left.is_some() == leave_announced(old(self).members(), addr),
            left matches Some(sent) ==> {
                &&& sent.message@ == Event::Leave(name@)
                &&& reaches(sent.report@, recipients(final(self).members(), addr))
            },
    {
        if self.contains(addr) {
            registry_remove(&mut self.peers, addr);
            let message = Arc::new(Message::leave(name.as_str()));
            let report = self.broadcast(addr, &message);
            Some(Broadcast { message, report })
        } else {
            assert(self.members().remove(addr) =~= self.members());
            None
        }
    }

    /// Offers `message` to the queue of every member but `from`, each once
    /// and in no promised order, and reports for each whether its queue took
    /// it. The offer does not wait: a queue that is full or closed drops the
    /// event for its own peer and for no other.
    pub fn broadcast(&self, from: (u128, u16), message: &Arc<Message>) -> (report: Vec<Delivery>)
        ensures
            reaches(report@, recipients(self.members(), from)),
            report@.len() == recipients(self.members(), from).len(),
            forall|i: int| 0 <= i < report@.len() ==> (#[trigger] report@[i]).to != from,
    {
        let entries = registry_entries(&self.peers);
        let mut report: Vec<Delivery> = Vec::new();
        let ghost mut origin: Seq<int> = Seq::empty();
        let mut k: usize = 0;
        while k < entries.len()
            invariant
                0 <= k <= entries@.len(),
                origin.len() == report@.len(),
                forall|i: int|
                    0 <= i < report@.len() ==> 0 <= #[trigger] origin[i] < k
                        && report@[i].to == entries@[origin[i]].0 && report@[i].to != from,
                forall|i: int, j: int|
                    0 <= i < j < report@.len() ==> #[trigger] origin[i] < #[trigger] origin[j],
                forall|e: int|
                    0 <= e < k && (#[trigger] entries@[e]).0 != from ==> exists|i: int|
                        0 <= i < report@.len() && #[trigger] origin[i] == e,
            decreases entries@.len() - k,
        {
            let to = entries[k].0;
            if to.0 != from.0 || to.1 != from.1 {
                let accepted = offer(&entries[k].1, message);
                proof {
                    let ghost before = origin;
                    origin = origin.push(k as int);
                    assert forall|e: int|
                        0 <= e < k + 1 && (#[trigger] entries@[e]).0 != from implies exists|i: int|
                        0 <= i < report@.len() + 1 && #[trigger] origin[i] == e by {
                        if e < k {
                            let i = choose|i: int|
                                0 <= i < report@.len() && #[trigger] before[i] == e;
                            assert(origin[i] == e);
                        } else {
                            assert(origin[report@.len() as int] == e);
                        }
                    }
                }
                report.push(Delivery { to, accepted });
            }
            k += 1;
        }
        proof {
            let targets = recipients(self.members(), from);
            assert forall|i: int| 0 <= i < report@.len() implies targets.contains(
                (#[trigger] report@[i]).to,
            ) by {
                assert(registered(self.peers).contains(entries@[origin[i]].0));
            }
            assert forall|addr: (u128, u16)| #[trigger] targets.contains(addr) implies exists|
                i: int,
            |
                0 <= i < report@.len() && (#[trigger] report@[i]).to == addr by {
                assert(registered(self.peers).contains(addr));
                let e = choose|e: int| 0 <= e < entries@.len() && (#[trigger] entries@[e]).0 == addr;
                let i = choose|i: int| 0 <= i < report@.len() && #[trigger] origin[i] == e;
                assert(report@[i].to == addr);
            }
            assert forall|i: int, j: int| 0 <= i < j < report@.len() implies (#[trigger] report@[i]).to
                != (#[trigger] report@[j]).to by {
                assert(origin[i] < origin[j]);
                assert(entries@[origin[i]].0 != entries@[origin[j]].0);
            }
            lemma_report_counts(report@, targets);
        }
        report
    }
}

/// A report that reaches `targets` holds as many deliveries as there are
/// targets, of which there are finitely many.
pub proof fn lemma_report_counts(report: Seq<Delivery>, targets: Set<(u128, u16)>)
    requires
        reaches(report, targets),
    ensures
        targets.finite(),
        report.len() == targets.len(),
{
    let tos = Seq::new(report.len(), |i: int| report[i].to);
    assert(tos.no_duplicates());
    assert forall|addr: (u128, u16)| tos.to_set().contains(addr) <==> targets.contains(addr) by {
        if tos.to_set().contains(addr) {
            let i = choose|i: int| 0 <= i < tos.len() && tos[i] == addr;
            assert(report[i].to == addr);
        }
        if targets.contains(addr) {
            let i = choose|i: int| 0 <= i < report.len() && (#[trigger] report[i]).to == addr;
            assert(tos[i] == addr);
        }
    }
    assert(tos.to_set() =~= targets);
    tos.unique_seq_to_set();
    vstd::seq_lib::seq_to_set_is_finite(tos);
}

/// Joins under distinct addresses into an empty room leave as many members
/// as there were joins.
pub proof fn lemma_distinct_joins_count(addrs: Seq<(u128, u16)>)
    requires
        addrs.no_duplicates(),
    ensures
        after_joins(Set::empty(), addrs).finite(),
        after_joins(Set::empty(), addrs).len() == addrs.len(),
        forall|addr: (u128, u16)| #[trigger]
            after_joins(Set::empty(), addrs).contains(addr) <==> addrs.contains(addr),
    decreases addrs.len(),
{
    if addrs.len() > 0 {
        let front = addrs.drop_last();
        lemma_distinct_joins_count(front);
        let before = after_joins(Set::empty(), front);
        assert forall|addr: (u128, u16)| front.contains(addr) implies addrs.contains(addr)
            && addr != addrs.last() by {
            let i = choose|i: int| 0 <= i < front.len() && front[i] == addr;
            assert(addrs[i] == addr);
        }
        assert forall|addr: (u128, u16)|
            addrs.contains(addr) && addr != addrs.last() implies front.contains(addr) by {
            let i = choose|i: int| 0 <= i < addrs.len() && addrs[i] == addr;
            assert(front[i] == addr);
        }
        assert(addrs.contains(addrs.last())) by {
            assert(addrs[addrs.len() - 1] == addrs.last());
        }
        assert(before.contains(addrs.last()) <==> front.contains(addrs.last()));
        assert forall|addr: (u128, u16)| #[trigger]
            after_joins(Set::empty(), addrs).contains(addr) <==> addrs.contains(addr) by {
            assert(before.contains(addr) <==> front.contains(addr));
        }
    }
}

/// Once a peer has left, a second leave of the same address is announced to
/// nobody and changes nothing: of two leaves in a row at most the first is
/// broadcast.
pub proof fn lemma_second_leave_is_silent(members: Set<(u128, u16)>, addr: (u128, u16))
    ensures
        !leave_announced(after_leave(members, addr), addr),
        after_leave(after_leave(members, addr), addr) == after_leave(members, addr),
{
    assert(members.remove(addr).remove(addr) =~= members.remove(addr));
}

/// No broadcast is delivered to the peer it comes from, whoever the members
/// are, and so no peer is offered its own join or its own chat.
pub proof fn lemma_sender_excluded(
    report: Seq<Delivery>,
    members: Set<(u128, u16)>,
    from: (u128, u16),
)
    requires
        reaches(report, recipients(members, from)),
    ensures
        forall|i: int| 0 <= i < report.len() ==> (#[trigger] report[i]).to != from,
{
}

} // verus!
