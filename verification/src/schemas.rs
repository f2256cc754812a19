//! The values that cross the wire and the room channel.

use vstd::prelude::*;

verus! {

/// A chat event as it is published to a room and written to clients.
#[derive(Debug, PartialEq, Eq)]
pub struct MessagePayload {
    /// Identifier the store assigned to the persisted message.
    pub id: u128,
    /// Display name of the author.
    pub username: String,
    /// Message text.
    pub text: String,
    /// Creation time, in milliseconds since the epoch.
    pub ts: u64,
}

/// The mathematical model of a chat event.
pub struct PayloadView {
    pub id: u128,
    pub username: Seq<char>,
    pub text: Seq<char>,
    pub ts: u64,
}

impl View for MessagePayload {
    type V = PayloadView;

    open spec fn view(&self) -> PayloadView {
        PayloadView { id: self.id, username: self.username@, text: self.text@, ts: self.ts }
    }
}

impl Clone for MessagePayload {
    fn clone(&self) -> (copy: Self)
        ensures
            copy == *self,
    {
        MessagePayload {
            id: self.id,
            username: self.username.clone(),
            text: self.text.clone(),
            ts: self.ts,
        }
    }
}

/// What a subscriber gets when it asks its room for the next event.
#[derive(Debug, PartialEq, Eq)]
pub enum Delivery {
    /// The next event, in the room's publication order.
    Message(MessagePayload),
    /// The subscriber fell behind: this many events were discarded unseen.
    Lagged(u64),
    /// Nothing is pending.
    Empty,
    /// The subscription does not exist (any more).
    Closed,
}

/// The mathematical model of a delivery.
pub enum DeliveryView {
    Message(PayloadView),
    Lagged(u64),
    Empty,
    Closed,
}

impl View for Delivery {
    type V = DeliveryView;

    open spec fn view(&self) -> DeliveryView {
        match self {
            Delivery::Message(event) => DeliveryView::Message(event@),
            Delivery::Lagged(missed) => DeliveryView::Lagged(*missed),
            Delivery::Empty => DeliveryView::Empty,
            Delivery::Closed => DeliveryView::Closed,
        }
    }
}

/// The views of a sequence of events.
pub open spec fn payload_views(events: Seq<MessagePayload>) -> Seq<PayloadView> {
    Seq::new(events.len(), |i: int| events[i]@)
}

/// A command that a client sends over its connection.
#[derive(Debug, PartialEq, Eq)]
pub enum ClientKind {
    /// `{"type":"join","username":"<string>"}`: announces the client under
    /// this display name.
    Join { username: String },
    /// `{"type":"chat","message":"<string>"}`: says something in the room. The
    /// author is the session's, never the frame's.
    Chat { message: String },
}

/// The mathematical model of a client command.
pub enum CommandView {
    Join { username: Seq<char> },
    Chat { message: Seq<char> },
}

impl View for ClientKind {
    type V = CommandView;

    open spec fn view(&self) -> CommandView {
        match self {
            ClientKind::Join { username } => CommandView::Join { username: username@ },
            ClientKind::Chat { message } => CommandView::Chat { message: message@ },
        }
    }
}

/// Why a unit of work from a client was rejected.
#[derive(Debug, Clone, Copy, PartialEq, Eq, Structural)]
pub enum ProtocolError {
    /// The room id in the connection path is no message-grouping key of the
    /// store: the connection is closed.
    InvalidRoomId,
    /// The frame is no command: it is dropped.
    MalformedCommand,
    /// The chat text is empty or longer than allowed: it is dropped.
    InvalidLength,
}

/// The view of an optional text.
pub open spec fn text_view(text: Option<String>) -> Option<Seq<char>> {
    match text {
        Some(t) => Some(t@),
        None => None,
    }
}

} // verus!
