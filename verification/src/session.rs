//! What the handler of one connection decides: the lines it sends while a
//! peer picks its name, and what becomes of each line that the peer sends
//! afterwards.

use std::sync::Arc;
use vstd::prelude::*;

use crate::message::{Event, Message};
use crate::room::{reaches, recipients, Broadcast, ChatRoom};
use crate::text::{is_blank, lemma_trimmed_empty_iff_blank, trim, trimmed};

verus! {

/// What came of reading the line that holds the peer's name.
#[derive(Debug)]
pub enum NameRead {
    /// The peer sent this line.
    Line(String),
    /// The transport failed.
    Failed,
    /// The peer closed the connection before it sent a line.
    Closed,
}

/// What the handler does once the name was read, or was not.
#[derive(Debug)]
pub enum Opening {
    /// Send `greeting` and let the peer join under `name`.
    Admit { name: String, greeting: String },
    /// Give the transport's error to the caller; nobody joins.
    Surface,
    /// End without a word and without an error; nobody joins.
    Silent,
}

/// The text of the prompt that opens every connection.
pub open spec fn prompt_text() -> Seq<char> {
    "Please enter your name: "@
}

/// The text that greets `name`.
pub open spec fn welcome_text(name: Seq<char>) -> Seq<char> {
    "Welcome! "@ + name
}

/// The prompt that is sent as soon as a peer connects.
pub fn prompt() -> (line: &'static str)
    ensures
        line@ == prompt_text(),
{
    "Please enter your name: "
}

/// The greeting that answers the name: `Welcome! <name>`.
pub fn welcome(name: &str) -> (line: String)
    ensures
        line@ == welcome_text(name@),
{
    let mut line = "Welcome! ".to_owned();
    line.append(name);
    line
}

/// Decides how a connection goes on after the name was read. Any line is
/// taken as the name, an empty one too.
pub fn open_session(read: NameRead) -> (opening: Opening)
    ensures
        match read {
            NameRead::Line(line) => opening matches Opening::Admit { name, greeting }
                && name@ == line@ && greeting@ == welcome_text(line@),
            NameRead::Failed => opening is Surface,
            NameRead::Closed => opening is Silent,
        },
{
    match read {
        NameRead::Line(name) => {
            let greeting = welcome(name.as_str());
            Opening::Admit { name, greeting }
        },
        NameRead::Failed => Opening::Surface,
        NameRead::Closed => Opening::Silent,
    }
}

/// The event that a line from `name` stands for: none where the line is
/// blank, else a chat of the trimmed line.
pub fn chat_line(name: &str, line: &str) -> (said: Option<Message>)
    ensures
        said.is_none() <==> is_blank(line@),
        said matches Some(message) ==> message@ == Event::Chat(name@, trimmed(line@)),
{
    let content = trim(line);
    proof {
        lemma_trimmed_empty_iff_blank(line@);
    }
    if content.is_empty() {
        None
    } else {
        Some(Message::chat_message(name, content))
    }
}

/// Handles one line that the peer `name` at `addr` sent: a blank line is
/// dropped and nothing is broadcast, any other is broadcast, trimmed, as a
/// chat to every member but `addr`.
pub fn receive_line(room: &ChatRoom, addr: (u128, u16), name: &str, line: &str) -> (sent: Option<
    Broadcast,
>)
    ensures
        sent.is_none() <==> is_blank(line@),
        sent matches Some(out) ==> {
            &&& out.message@ == Event::Chat(name@, trimmed(line@))
            &&& reaches(out.report@, recipients(room.members(), addr))
        },
{
    match chat_line(name, line) {
        Some(chat) => {
            let message = Arc::new(chat);
            let report = room.broadcast(addr, &message);
            Some(Broadcast { message, report })
        },
        None => None,
    }
}

/// The lines that the handler writes for the events that it took from a
/// peer's queue: one line for each event, the rendering of that event, in
/// the order in which the queue gave them.
pub fn render_batch(events: &Vec<Arc<Message>>) -> (lines: Vec<String>)
    ensures
        lines@.len() == events@.len(),
        forall|i: int| 0 <= i < events@.len() ==> (#[trigger] lines@[i])@ == events@[i]@.rendered(),
{
    let mut lines: Vec<String> = Vec::new();
    let mut k: usize = 0;
    while k < events.len()
        invariant
            0 <= k <= events@.len(),
            lines@.len() == k,
            forall|i: int| 0 <= i < k ==> (#[trigger] lines@[i])@ == events@[i]@.rendered(),
        decreases events@.len() - k,
    {
        lines.push(events[k].to_string());
        k += 1;
    }
    lines
}

} // verus!
