//! What the gateway delivers, as far as the bot reads it.

use vstd::prelude::*;

verus! {

/// A chat message that was created.
#[derive(Debug, Clone, PartialEq, Eq)]
pub struct Message {
    /// Text of the message.
    pub content: String,
    /// The channel that the message was sent to.
    pub channel_id: u64,
    /// The server of that channel; `None` outside a server.
    pub guild_id: Option<u64>,
}

/// The mathematical value of a [`Message`].
pub struct MessageView {
    pub content: Seq<char>,
    pub channel_id: u64,
    pub guild_id: Option<u64>,
}

impl View for Message {
    type V = MessageView;

    open spec fn view(&self) -> MessageView {
        MessageView {
            content: self.content@,
            channel_id: self.channel_id,
            guild_id: self.guild_id,
        }
    }
}

/// An event of the gateway.
#[derive(Debug, Clone, PartialEq, Eq)]
pub enum Event {
    /// The session is ready; `user_name` is the display name of the bot.
    Ready { user_name: String },
    /// A message was created.
    MessageCreate(Message),
    /// Any other event.
    Other,
}

/// The mathematical value of an [`Event`].
pub enum EventView {
    Ready { user_name: Seq<char> },
    MessageCreate(MessageView),
    Other,
}

impl View for Event {
    type V = EventView;

    open spec fn view(&self) -> EventView {
        match self {
            Event::Ready { user_name } => EventView::Ready { user_name: user_name@ },
            Event::MessageCreate(message) => EventView::MessageCreate(message@),
            Event::Other => EventView::Other,
        }
    }
}

} // verus!
