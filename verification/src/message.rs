//! The events of the room and their wire text.

use vstd::prelude::*;

verus! {

/// A line of chat together with the display name of the peer that sent it.
#[derive(Debug, Clone)]
pub struct ChatMessage {
    pub from: String,
    pub content: String,
}

/// An event of the room.
#[derive(Debug, Clone)]
pub enum Message {
    Join(String),
    Leave(String),
    Chat(ChatMessage),
}

/// The mathematical value of a [`Message`]: its variant and its texts.
pub enum Event {
    Join(Seq<char>),
    Leave(Seq<char>),
    Chat(Seq<char>, Seq<char>),
}

impl Event {
    /// The line of text that stands for this event on the wire.
    pub open spec fn rendered(self) -> Seq<char> {
        match self {
            Event::Join(name) => name + " joined the chat room"@,
            Event::Leave(name) => name + " left the chat room"@,
            Event::Chat(from, content) => from + ": "@ + content,
        }
    }
}

impl View for Message {
    type V = Event;

    open spec fn view(&self) -> Event {
        match self {
            Message::Join(name) => Event::Join(name@),
            Message::Leave(name) => Event::Leave(name@),
            Message::Chat(chat) => Event::Chat(chat.from@, chat.content@),
        }
    }
}

impl Message {
    /// The event that `name` has entered the room.
    pub fn join(name: &str) -> (message: Message)
        ensures
            message@ == Event::Join(name@),
    {
        Message::Join(name.to_owned())
    }

    /// The event that `name` has left the room.
    pub fn leave(name: &str) -> (message: Message)
        ensures
            message@ == Event::Leave(name@),
    {
        Message::Leave(name.to_owned())
    }

    /// The event that `from` said `content`.
    pub fn chat_message(from: &str, content: &str) -> (message: Message)
        ensures
            message@ == Event::Chat(from@, content@),
    {
        Message::Chat(ChatMessage { from: from.to_owned(), content: content.to_owned() })
    }

    /// The wire text of the event: `<name> joined the chat room`,
    /// `<name> left the chat room` or `<from>: <content>`.
    pub fn to_string(&self) -> (line: String)
        ensures
            line@ == self@.rendered(),
    {
        match self {
            Message::Join(name) => {
                let mut line = name.clone();
                line.append(" joined the chat room");
                line
            },
            Message::Leave(name) => {
                let mut line = name.clone();
                line.append(" left the chat room");
                line
            },
            Message::Chat(chat) => {
                let mut line = chat.from.clone();
                line.append(": ");
                line.append(chat.content.as_str());
                line
            },
        }
    }
}

} // verus!
