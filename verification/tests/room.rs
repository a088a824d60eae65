use chat_room::message::Message;
use chat_room::peer::Peer;
use chat_room::room::{ChatRoom, MAX_MESSAGES};
use chat_room::session::receive_line;

const ALICE: (u128, u16) = (0x7f00_0001, 50001);
const BOB: (u128, u16) = (0x7f00_0001, 50002);
const CAROL: (u128, u16) = (0x7f00_0002, 50001);

fn drain(peer: &mut Peer) -> Vec<String> {
    let mut lines = Vec::new();
    while let Ok(message) = peer.receiver.try_recv() {
        lines.push(message.to_string());
    }
    lines
}

#[test]
fn new_room_is_empty() {
    let room = ChatRoom::new();
    assert_eq!(room.len(), 0);
    assert!(!room.contains(ALICE));
}

#[test]
fn first_join_reaches_nobody() {
    let mut room = ChatRoom::new();
    let (mut alice, sent) = room.join(ALICE, "Alice".to_string());
    assert!(sent.report.is_empty());
    assert_eq!(sent.message.to_string(), "Alice joined the chat room");
    assert_eq!(room.len(), 1);
    assert!(room.contains(ALICE));
    assert_eq!(alice.name, "Alice");
    assert_eq!(alice.addr, ALICE);
    assert!(drain(&mut alice).is_empty());
}

#[test]
fn second_join_is_announced_to_the_first_only() {
    let mut room = ChatRoom::new();
    let (mut alice, _) = room.join(ALICE, "Alice".to_string());
    let (mut bob, sent) = room.join(BOB, "Bob".to_string());
    assert_eq!(sent.report.len(), 1);
    assert_eq!(sent.report[0].to, ALICE);
    assert!(sent.report[0].accepted);
    assert_eq!(drain(&mut alice), vec!["Bob joined the chat room".to_string()]);
    assert!(drain(&mut bob).is_empty());
    assert_eq!(room.len(), 2);
}

#[test]
fn chat_reaches_the_other_peer() {
    let mut room = ChatRoom::new();
    let (mut alice, _) = room.join(ALICE, "Alice".to_string());
    let (mut bob, _) = room.join(BOB, "Bob".to_string());
    drain(&mut alice);
    let sent = receive_line(&room, ALICE, "Alice", "hello").unwrap();
    assert_eq!(sent.report.len(), 1);
    assert_eq!(sent.report[0].to, BOB);
    assert!(sent.report[0].accepted);
    assert_eq!(drain(&mut bob), vec!["Alice: hello".to_string()]);
    assert!(drain(&mut alice).is_empty());
}

#[test]
fn leave_is_announced_and_unregisters() {
    let mut room = ChatRoom::new();
    let (_alice, _) = room.join(ALICE, "Alice".to_string());
    let (mut bob, _) = room.join(BOB, "Bob".to_string());
    let sent = room.leave(ALICE, "Alice".to_string()).unwrap();
    assert_eq!(sent.report.len(), 1);
    assert_eq!(sent.report[0].to, BOB);
    assert_eq!(drain(&mut bob), vec!["Alice left the chat room".to_string()]);
    assert!(!room.contains(ALICE));
    assert!(room.contains(BOB));
    assert_eq!(room.len(), 1);
}

#[test]
fn empty_line_is_not_broadcast() {
    let mut room = ChatRoom::new();
    let (_alice, _) = room.join(ALICE, "Alice".to_string());
    let (mut bob, _) = room.join(BOB, "Bob".to_string());
    assert!(receive_line(&room, ALICE, "Alice", "\n").is_none());
    assert!(receive_line(&room, ALICE, "Alice", "").is_none());
    assert!(receive_line(&room, ALICE, "Alice", " \t\r\n").is_none());
    assert!(drain(&mut bob).is_empty());
}

#[test]
fn distinct_joins_are_counted() {
    let mut room = ChatRoom::new();
    let mut peers = Vec::new();
    for port in 1..=20u16 {
        let (peer, sent) = room.join((7, port), format!("peer{}", port));
        assert_eq!(sent.report.len(), usize::from(port) - 1);
        peers.push(peer);
        assert_eq!(room.len(), usize::from(port));
    }
    assert_eq!(room.len(), 20);
}

#[test]
fn joining_twice_under_one_address_keeps_one_entry() {
    let mut room = ChatRoom::new();
    let (_first, _) = room.join(ALICE, "Alice".to_string());
    let (_second, sent) = room.join(ALICE, "Alice".to_string());
    assert!(sent.report.is_empty());
    assert_eq!(room.len(), 1);
}

#[test]
fn second_leave_is_silent() {
    let mut room = ChatRoom::new();
    let (_alice, _) = room.join(ALICE, "Alice".to_string());
    let (mut bob, _) = room.join(BOB, "Bob".to_string());
    assert!(room.leave(ALICE, "Alice".to_string()).is_some());
    assert!(room.leave(ALICE, "Alice".to_string()).is_none());
    assert_eq!(drain(&mut bob), vec!["Alice left the chat room".to_string()]);
    assert_eq!(room.len(), 1);
}

#[test]
fn leave_of_a_stranger_changes_nothing() {
    let mut room = ChatRoom::new();
    let (mut alice, _) = room.join(ALICE, "Alice".to_string());
    assert!(room.leave(CAROL, "Carol".to_string()).is_none());
    assert_eq!(room.len(), 1);
    assert!(room.contains(ALICE));
    assert!(drain(&mut alice).is_empty());
}

#[test]
fn sender_never_hears_itself() {
    let mut room = ChatRoom::new();
    let (mut alice, _) = room.join(ALICE, "Alice".to_string());
    let (mut bob, _) = room.join(BOB, "Bob".to_string());
    let (mut carol, joined) = room.join(CAROL, "Carol".to_string());
    assert!(joined.report.iter().all(|d| d.to != CAROL));
    let message = std::sync::Arc::new(Message::chat_message("Carol", "hi all"));
    let report = room.broadcast(CAROL, &message);
    let mut reached: Vec<(u128, u16)> = report.iter().map(|d| d.to).collect();
    reached.sort();
    assert_eq!(reached, vec![ALICE, BOB]);
    assert!(drain(&mut carol).is_empty());
    assert_eq!(
        drain(&mut alice),
        vec![
            "Bob joined the chat room".to_string(),
            "Carol joined the chat room".to_string(),
            "Carol: hi all".to_string()
        ]
    );
    assert_eq!(
        drain(&mut bob),
        vec!["Carol joined the chat room".to_string(), "Carol: hi all".to_string()]
    );
}

#[test]
fn broadcast_from_a_stranger_reaches_everyone() {
    let mut room = ChatRoom::new();
    let (mut alice, _) = room.join(ALICE, "Alice".to_string());
    let message = std::sync::Arc::new(Message::leave("Ghost"));
    let report = room.broadcast(CAROL, &message);
    assert_eq!(report.len(), 1);
    assert_eq!(report[0].to, ALICE);
    assert_eq!(drain(&mut alice), vec!["Ghost left the chat room".to_string()]);
}

#[test]
fn queue_keeps_the_order_of_arrival() {
    let mut room = ChatRoom::new();
    let (_alice, _) = room.join(ALICE, "Alice".to_string());
    let (mut bob, _) = room.join(BOB, "Bob".to_string());
    let (_carol, _) = room.join(CAROL, "Carol".to_string());
    receive_line(&room, ALICE, "Alice", "one").unwrap();
    receive_line(&room, CAROL, "Carol", "two").unwrap();
    receive_line(&room, ALICE, "Alice", "three").unwrap();
    assert_eq!(
        drain(&mut bob),
        vec![
            "Carol joined the chat room".to_string(),
            "Alice: one".to_string(),
            "Carol: two".to_string(),
            "Alice: three".to_string()
        ]
    );
}

#[test]
fn closed_queue_does_not_stop_the_others() {
    let mut room = ChatRoom::new();
    let (alice, _) = room.join(ALICE, "Alice".to_string());
    let (mut bob, _) = room.join(BOB, "Bob".to_string());
    drop(alice);
    let sent = receive_line(&room, CAROL, "Carol", "anyone?").unwrap();
    assert_eq!(sent.report.len(), 2);
    for delivery in &sent.report {
        assert_eq!(delivery.accepted, delivery.to == BOB);
    }
    assert_eq!(drain(&mut bob), vec!["Carol: anyone?".to_string()]);
}

#[test]
fn full_queue_drops_the_event_for_that_peer_alone() {
    let mut room = ChatRoom::new();
    let (mut alice, _) = room.join(ALICE, "Alice".to_string());
    let (mut bob, _) = room.join(BOB, "Bob".to_string());
    drain(&mut alice);
    for n in 0..MAX_MESSAGES {
        let sent = receive_line(&room, BOB, "Bob", &format!("line {}", n)).unwrap();
        assert!(sent.report[0].accepted);
    }
    let sent = receive_line(&room, CAROL, "Carol", "one too many").unwrap();
    assert_eq!(sent.report.len(), 2);
    for delivery in &sent.report {
        assert_eq!(delivery.accepted, delivery.to == BOB);
    }
    let lines = drain(&mut alice);
    assert_eq!(lines.len(), 128);
    assert_eq!(lines[0], "Bob: line 0");
    assert_eq!(lines[127], "Bob: line 127");
    assert_eq!(drain(&mut bob), vec!["Carol: one too many".to_string()]);
}

#[test]
fn outbox_is_there_for_members_only() {
    let mut room = ChatRoom::new();
    assert!(room.outbox(ALICE).is_none());
    let (mut alice, _) = room.join(ALICE, "Alice".to_string());
    assert!(room.outbox(BOB).is_none());
    let outbox = room.outbox(ALICE).unwrap();
    let message = std::sync::Arc::new(Message::chat_message("Bob", "psst"));
    assert!(outbox.try_send(message).is_ok());
    assert_eq!(drain(&mut alice), vec!["Bob: psst".to_string()]);
    room.leave(ALICE, "Alice".to_string());
    assert!(room.outbox(ALICE).is_none());
}

#[test]
fn missed_event_can_be_sent_once_there_is_room() {
    let mut room = ChatRoom::new();
    let (mut alice, _) = room.join(ALICE, "Alice".to_string());
    for n in 0..MAX_MESSAGES {
        receive_line(&room, BOB, "Bob", &format!("line {}", n)).unwrap();
    }
    let sent = receive_line(&room, BOB, "Bob", "late").unwrap();
    assert_eq!(sent.report.len(), 1);
    assert!(!sent.report[0].accepted);
    assert_eq!(drain(&mut alice).len(), 128);
    let outbox = room.outbox(sent.report[0].to).unwrap();
    assert!(outbox.try_send(sent.message.clone()).is_ok());
    assert_eq!(drain(&mut alice), vec!["Bob: late".to_string()]);
}
