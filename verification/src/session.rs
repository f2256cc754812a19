//! The decisions of one connection session.
//!
//! A session subscribes to its room first and replays history second, so that
//! nothing published in between is lost; it forwards live events only after
//! the replay. The surrounding program performs the outside work (reading and
//! writing the stream, calling the store) and hands the results back here.

use crate::codec::{decode_command, decoded, encode_event, encoded};
use crate::ids::{room_key, parse_uuid, uuid_value, SYSTEM_USER_ID};
use crate::registry::{joined, left, published, received, room_or_fresh, Registry, Subscription};
use crate::room::first_free;
use crate::schemas::{
    payload_views, ClientKind, CommandView, Delivery, DeliveryView, MessagePayload, PayloadView,
    ProtocolError,
};
use crate::store::{history_window, recent_events, record_views, ChatMessage, RecordView};
use crate::text::{byte_len, string_views, trim, trimmed, utf8_len};
use vstd::prelude::*;

verus! {

/// How many persisted messages are replayed to a client that joins.
pub const DEFAULT_HISTORY_LIMIT: usize = 100;

/// How many events a room keeps for slow subscribers.
pub const DEFAULT_QUEUE_DEPTH: usize = 100;

/// The longest chat text that is accepted, in bytes.
pub const DEFAULT_MAX_TEXT_LEN: usize = 5000;

/// The limits of a session.
#[derive(Debug, Clone, Copy)]
pub struct SessionConfig {
    /// How many persisted messages are replayed on join.
    pub history_limit: usize,
    /// The longest chat text that is accepted, in bytes.
    pub max_text_len: usize,
}

impl SessionConfig {
    /// The usual limits.
    pub fn standard() -> (config: SessionConfig)
        ensures
            config.history_limit == DEFAULT_HISTORY_LIMIT,
            config.max_text_len == DEFAULT_MAX_TEXT_LEN,
    {
        SessionConfig { history_limit: DEFAULT_HISTORY_LIMIT, max_text_len: DEFAULT_MAX_TEXT_LEN }
    }
}

/// Where a session stands.
#[derive(Debug, Clone, Copy, PartialEq, Eq, Structural)]
pub enum Phase {
    /// Subscribed; the history has not been replayed yet.
    Hydrating,
    /// The history was replayed; live events are forwarded.
    Live,
    /// The room or the stream is gone.
    Closed,
}

/// A message that was accepted and is to be persisted.
#[derive(Debug, PartialEq, Eq)]
pub struct Draft {
    /// The room's grouping key in the store.
    pub chat_id: u128,
    /// The author that the server stamps on the message.
    pub author: u128,
    /// The display name to publish the message under.
    pub username: String,
    /// The text.
    pub content: String,
}

/// The mathematical model of a draft.
pub struct DraftView {
    pub chat_id: u128,
    pub author: u128,
    pub username: Seq<char>,
    pub content: Seq<char>,
}

impl View for Draft {
    type V = DraftView;

    open spec fn view(&self) -> DraftView {
        DraftView {
            chat_id: self.chat_id,
            author: self.author,
            username: self.username@,
            content: self.content@,
        }
    }
}

/// What to do with a frame from the client.
#[derive(Debug, PartialEq, Eq)]
pub enum InboundAction {
    /// Persist this message, then publish what the store returns.
    Persist(Draft),
    /// Drop the frame, for this reason, and read on.
    Drop(ProtocolError),
}

/// The mathematical model of an inbound action.
pub enum InboundView {
    Persist(DraftView),
    Drop(ProtocolError),
}

impl View for InboundAction {
    type V = InboundView;

    open spec fn view(&self) -> InboundView {
        match self {
            InboundAction::Persist(draft) => InboundView::Persist(draft@),
            InboundAction::Drop(reason) => InboundView::Drop(*reason),
        }
    }
}

/// What to do next on the way to the client.
#[derive(Debug, PartialEq, Eq)]
pub enum OutboundAction {
    /// Write this frame to the client.
    Send(String),
    /// The client fell behind and lost this many events; carry on.
    Skip(u64),
    /// Nothing to forward now; wait for the room.
    Wait,
    /// End the session.
    Stop,
}

/// The mathematical model of an outbound action.
pub enum OutboundView {
    Send(Seq<char>),
    Skip(u64),
    Wait,
    Stop,
}

impl View for OutboundAction {
    type V = OutboundView;

    open spec fn view(&self) -> OutboundView {
        match self {
            OutboundAction::Send(frame) => OutboundView::Send(frame@),
            OutboundAction::Skip(missed) => OutboundView::Skip(*missed),
            OutboundAction::Wait => OutboundView::Wait,
            OutboundAction::Stop => OutboundView::Stop,
        }
    }
}

/// The display name of the system's own messages.
pub open spec fn system_name() -> Seq<char> {
    "[system]"@
}

/// The text that announces that `username` joined.
pub open spec fn join_notice(username: Seq<char>) -> Seq<char> {
    username + " joined the room"@
}

/// A chat text is acceptable if it is not empty and no longer than `max`
/// bytes.
pub open spec fn acceptable(text: Seq<char>, max: nat) -> bool {
    text.len() > 0 && utf8_len(text) <= max
}

/// The mathematical model of a session.
pub struct SessionView {
    pub chat_id: u128,
    pub user_id: u128,
    pub username: Seq<char>,
    pub room: Seq<char>,
    pub slot: int,
    pub phase: Phase,
    pub history_limit: nat,
    pub max_text_len: nat,
}

/// What a session does with a frame that decoded to `command`. A join is
/// announced by the system; a chat is stamped with the session's own
/// identity, trimmed, and dropped unless its text is acceptable.
pub open spec fn planned(session: SessionView, command: Result<CommandView, ProtocolError>)
    -> InboundView {
    match command {
        Err(reason) => InboundView::Drop(reason),
        Ok(CommandView::Join { username }) => InboundView::Persist(
            DraftView {
                chat_id: session.chat_id,
                author: SYSTEM_USER_ID,
                username: system_name(),
                content: join_notice(username),
            },
        ),
        Ok(CommandView::Chat { message }) => if acceptable(
            trimmed(message),
            session.max_text_len,
        ) {
            InboundView::Persist(
                DraftView {
                    chat_id: session.chat_id,
                    author: session.user_id,
                    username: session.username,
                    content: trimmed(message),
                },
            )
        } else {
            InboundView::Drop(ProtocolError::InvalidLength)
        },
    }
}

/// The session after a frame that decoded to `command`: a join gives the
/// session its display name.
pub open spec fn renamed(session: SessionView, command: Result<CommandView, ProtocolError>)
    -> SessionView {
    match command {
        Ok(CommandView::Join { username }) => SessionView { username, ..session },
        _ => session,
    }
}

/// What a frame decodes to.
pub open spec fn decoded_frame(frame: Seq<char>) -> Result<CommandView, ProtocolError> {
    match decoded(frame) {
        Some(command) => Ok(command),
        None => Err(ProtocolError::MalformedCommand),
    }
}

/// The view of a decoding result.
pub open spec fn command_view(command: Result<ClientKind, ProtocolError>) -> Result<
    CommandView,
    ProtocolError,
> {
    match command {
        Ok(command) => Ok(command@),
        Err(reason) => Err(reason),
    }
}

/// What to do with a delivery from the room: forward an event, carry on after
/// a lag notice, wait when nothing is pending, stop when the room is gone.
pub open spec fn outbound_of(delivery: DeliveryView) -> OutboundView {
    match delivery {
        DeliveryView::Message(event) => OutboundView::Send(encoded(event)),
        DeliveryView::Lagged(missed) => OutboundView::Skip(missed),
        DeliveryView::Empty => OutboundView::Wait,
        DeliveryView::Closed => OutboundView::Stop,
    }
}

/// Decides what to do with a delivery from the room.
pub fn outbound_action(delivery: Delivery) -> (action: OutboundAction)
    ensures
        action@ == outbound_of(delivery@),
{
    match delivery {
        Delivery::Message(event) => OutboundAction::Send(encode_event(&event)),
        Delivery::Lagged(missed) => OutboundAction::Skip(missed),
        Delivery::Empty => OutboundAction::Wait,
        Delivery::Closed => OutboundAction::Stop,
    }
}

/// The event to publish for a draft that the store persisted as `record`: it
/// carries the store's identifier, text and creation time.
pub open spec fn persisted_event(draft: DraftView, record: RecordView) -> PayloadView {
    PayloadView {
        id: record.message_id,
        username: draft.username,
        text: record.content,
        ts: record.created_at as u64,
    }
}

/// The wire texts of a sequence of events.
pub open spec fn encoded_all(events: Seq<PayloadView>) -> Seq<Seq<char>> {
    Seq::new(events.len(), |i: int| encoded(events[i]))
}

/// The state of one connection.
#[derive(Debug)]
pub struct Session {
    chat_id: u128,
    user_id: u128,
    username: String,
    subscription: Subscription,
    phase: Phase,
    config: SessionConfig,
}

impl View for Session {
    type V = SessionView;

    closed spec fn view(&self) -> SessionView {
        SessionView {
            chat_id: self.chat_id,
            user_id: self.user_id,
            username: self.username@,
            room: self.subscription.room_name(),
            slot: self.subscription.slot_index(),
            phase: self.phase,
            history_limit: self.config.history_limit as nat,
            max_text_len: self.config.max_text_len as nat,
        }
    }
}

impl Session {
    /// Opens a session for a connection to `room_id` whose id parsed to
    /// `parsed`. A room id that did not parse is rejected and the registry is
    /// left alone. Otherwise the session joins the room at once, before any
    /// history is fetched, and waits for the history.
    pub fn open_resolved(
        registry: &mut Registry,
        room_id: &str,
        parsed: Option<u128>,
        user_id: u128,
        config: SessionConfig,
    ) -> (opened: Result<Session, ProtocolError>)
        requires
            old(registry).wf(),
        ensures
            final(registry).wf(),
            final(registry).queue_depth() == old(registry).queue_depth(),
            match parsed {
                None => {
                    &&& opened is Err
                    &&& opened->Err_0 == ProtocolError::InvalidRoomId
                    &&& final(registry)@ == old(registry)@
                },
                Some(chat_id) => {
                    &&& opened is Ok
                    &&& opened->Ok_0@ == (SessionView {
                        chat_id,
                        user_id,
                        username: Seq::empty(),
                        room: room_id@,
                        slot: opened->Ok_0@.slot,
                        phase: Phase::Hydrating,
                        history_limit: config.history_limit as nat,
                        max_text_len: config.max_text_len as nat,
                    })
                    &&& first_free(
                        room_or_fresh(old(registry)@, old(registry).queue_depth(), room_id@).cursors,
                        opened->Ok_0@.slot,
                    )
                    &&& final(registry)@ == joined(
                        old(registry)@,
                        old(registry).queue_depth(),
                        room_id@,
                        opened->Ok_0@.slot,
                    )
                },
            },
    {
        match room_key(parsed) {
            Err(reason) => Err(reason),
            Ok(chat_id) => {
                let subscription = registry.join(room_id);
                Ok(
                    Session {
                        chat_id,
                        user_id,
                        username: String::new(),
                        subscription,
                        phase: Phase::Hydrating,
                        config,
                    },
                )
            },
        }
    }

    /// Opens a session for a connection to `room_id`, which must be the text
    /// of a UUID: see `open_resolved`.
    pub fn open(registry: &mut Registry, room_id: &str, user_id: u128, config: SessionConfig) -> (opened:
        Result<Session, ProtocolError>)
        requires
            old(registry).wf(),
        ensures
            final(registry).wf(),
            final(registry).queue_depth() == old(registry).queue_depth(),
            match uuid_value(room_id@) {
                None => {
                    &&& opened is Err
                    &&& opened->Err_0 == ProtocolError::InvalidRoomId
                    &&& final(registry)@ == old(registry)@
                },
                Some(chat_id) => {
                    &&& opened is Ok
                    &&& opened->Ok_0@ == (SessionView {
                        chat_id,
                        user_id,
                        username: Seq::empty(),
                        room: room_id@,
                        slot: opened->Ok_0@.slot,
                        phase: Phase::Hydrating,
                        history_limit: config.history_limit as nat,
                        max_text_len: config.max_text_len as nat,
                    })
                    &&& first_free(
                        room_or_fresh(old(registry)@, old(registry).queue_depth(), room_id@).cursors,
                        opened->Ok_0@.slot,
                    )
                    &&& final(registry)@ == joined(
                        old(registry)@,
                        old(registry).queue_depth(),
                        room_id@,
                        opened->Ok_0@.slot,
                    )
                },
            },
    {
        let parsed = parse_uuid(room_id);
        Session::open_resolved(registry, room_id, parsed, user_id, config)
    }

    /// The room's grouping key in the store.
    pub fn chat_id(&self) -> (chat_id: u128)
        ensures
            chat_id == self@.chat_id,
    {
        self.chat_id
    }

    /// The name of the room in the registry.
    pub fn room(&self) -> (name: &str)
        ensures
            name@ == self@.room,
    {
        self.subscription.room()
    }

    /// Where the session stands.
    pub fn phase(&self) -> (phase: Phase)
        ensures
            phase == self@.phase,
    {
        self.phase
    }

    /// How many persisted messages to ask the store for.
    pub fn history_limit(&self) -> (limit: usize)
        ensures
            limit == self@.history_limit,
    {
        self.config.history_limit
    }

    /// Replays history. `records` is what the store lists for the room,
    /// newest first. The frames to write are the events of at most the
    /// session's limit of the most recent records that are not deleted, in
    /// chronological order. After this the session is live. A session that is
    /// not waiting for history replays nothing.
    pub fn hydrate(&mut self, records: &Vec<ChatMessage>) -> (frames: Vec<String>)
        ensures
            old(self)@.phase == Phase::Hydrating ==> {
                &&& final(self)@ == (SessionView { phase: Phase::Live, ..old(self)@ })
                &&& string_views(frames@) == encoded_all(
                    history_window(record_views(records@), old(self)@.history_limit),
                )
            },
            old(self)@.phase != Phase::Hydrating ==> {
                &&& final(self)@ == old(self)@
                &&& frames@.len() == 0
            },
    {
        let mut frames: Vec<String> = Vec::new();
        if self.phase != Phase::Hydrating {
            return frames;
        }
        let events = recent_events(records, self.config.history_limit);
        let ghost window = history_window(record_views(records@), self@.history_limit);
        let mut index: usize = 0;
        while index < events.len()
            invariant
                index <= events.len(),
                payload_views(events@) == window,
                frames@.len() == index,
                forall|i: int| 0 <= i < index ==> (#[trigger] frames@[i])@ == encoded(window[i]),
            decreases events.len() - index,
        {
            assert(payload_views(events@)[index as int] == events@[index as int]@);
            frames.push(encode_event(&events[index]));
            index += 1;
        }
        assert(payload_views(events@).len() == events@.len());
        self.phase = Phase::Live;
        assert(string_views(frames@) =~= encoded_all(window));
        frames
    }

    /// Takes the next step on the way to the client. While the history has
    /// not been replayed nothing is taken from the room: no live event is
    /// forwarded before the history. A live session takes its next delivery
    /// from its room: an event is to be written, a lag notice is to be passed
    /// over without ending the session, and a room that is gone ends it.
    pub fn outbound(&mut self, registry: &mut Registry) -> (action: OutboundAction)
        requires
            old(registry).wf(),
        ensures
            final(registry).wf(),
            final(registry).queue_depth() == old(registry).queue_depth(),
            old(self)@.phase == Phase::Hydrating ==> {
                &&& action@ == OutboundView::Wait
                &&& final(self)@ == old(self)@
                &&& final(registry)@ == old(registry)@
            },
            old(self)@.phase == Phase::Closed ==> {
                &&& action@ == OutboundView::Stop
                &&& final(self)@ == old(self)@
                &&& final(registry)@ == old(registry)@
            },
            old(self)@.phase == Phase::Live ==> {
                &&& action@ == outbound_of(
                    if old(registry)@.contains_key(old(self)@.room) {
                        old(registry)@[old(self)@.room].next(old(self)@.slot)
                    } else {
                        DeliveryView::Closed
                    },
                )
                &&& final(registry)@ == received(old(registry)@, old(self)@.room, old(self)@.slot)
                &&& final(self)@ == (SessionView {
                    phase: if action@ is Stop {
                        Phase::Closed
                    } else {
                        Phase::Live
                    },
                    ..old(self)@
                })
            },
    {
        match self.phase {
            Phase::Hydrating => OutboundAction::Wait,
            Phase::Closed => OutboundAction::Stop,
            Phase::Live => {
                let delivery = registry.receive(&self.subscription);
                let action = outbound_action(delivery);
                if let OutboundAction::Stop = action {
                    self.phase = Phase::Closed;
                }
                action
            },
        }
    }

    /// Records the outcome of writing a frame to the client. A failed write
    /// ends the session. Returns whether the session goes on.
    pub fn written(&mut self, ok: bool) -> (go_on: bool)
        ensures
            go_on == (ok && old(self)@.phase != Phase::Closed),
            final(self)@ == (SessionView {
                phase: if ok {
                    old(self)@.phase
                } else {
                    Phase::Closed
                },
                ..old(self)@
            }),
    {
        if !ok {
            self.phase = Phase::Closed;
            false
        } else {
            self.phase != Phase::Closed
        }
    }

    /// Decides what to do with a frame that decoded to `command`.
    pub fn plan(&mut self, command: Result<ClientKind, ProtocolError>) -> (action: InboundAction)
        ensures
            action@ == planned(old(self)@, command_view(command)),
            final(self)@ == renamed(old(self)@, command_view(command)),
    {
        match command {
            Err(reason) => InboundAction::Drop(reason),
            Ok(ClientKind::Join { username }) => {
                let mut content = username.clone();
                content.append(" joined the room");
                self.username = username;
                InboundAction::Persist(
                    Draft {
                        chat_id: self.chat_id,
                        author: SYSTEM_USER_ID,
                        username: String::from_str("[system]"),
                        content,
                    },
                )
            },
            Ok(ClientKind::Chat { message }) => {
                let text = trim(message.as_str());
                if text.is_empty() || byte_len(text) > self.config.max_text_len {
                    InboundAction::Drop(ProtocolError::InvalidLength)
                } else {
                    InboundAction::Persist(
                        Draft {
                            chat_id: self.chat_id,
                            author: self.user_id,
                            username: self.username.clone(),
                            content: text.to_owned(),
                        },
                    )
                }
            },
        }
    }

    /// Decides what to do with a frame from the client: see `plan`. A frame
    /// that is no command is dropped; it does not end the session.
    pub fn inbound(&mut self, frame: &str) -> (action: InboundAction)
        ensures
            action@ == planned(old(self)@, decoded_frame(frame@)),
            final(self)@ == renamed(old(self)@, decoded_frame(frame@)),
    {
        let command = decode_command(frame);
        self.plan(command)
    }

    /// Publishes a draft once the store has answered. Where the store failed
    /// (`stored` is `None`) nothing is published. Otherwise the persisted
    /// record is published to the session's room, with the identifier and
    /// the time that the store assigned. Returns whether an event entered
    /// the room.
    pub fn broadcast(&self, registry: &mut Registry, draft: Draft, stored: Option<ChatMessage>) -> (delivered:
        bool)
        requires
            old(registry).wf(),
        ensures
            final(registry).wf(),
            final(registry).queue_depth() == old(registry).queue_depth(),
            match stored {
                None => !delivered && final(registry)@ == old(registry)@,
                Some(record) => {
                    &&& final(registry)@ == published(
                        old(registry)@,
                        self@.room,
                        persisted_event(draft@, record@),
                    )
                    &&& delivered == (old(registry)@.contains_key(self@.room) && old(
                        registry,
                    )@[self@.room].history.len() < u64::MAX)
                },
            },
    {
        match stored {
            None => false,
            Some(record) => {
                let event = MessagePayload {
                    id: record.message_id,
                    username: draft.username,
                    text: record.content,
                    ts: #[verifier::truncate]
                    (record.created_at as u64),
                };
                registry.publish(self.subscription.room(), event)
            },
        }
    }

    /// Ends the session: its subscription leaves the room, and the room goes
    /// with its last subscriber. Returns whether the room was removed.
    pub fn close(self, registry: &mut Registry) -> (removed: bool)
        requires
            old(registry).wf(),
        ensures
            final(registry).wf(),
            final(registry).queue_depth() == old(registry).queue_depth(),
            final(registry)@ == left(old(registry)@, self@.room, self@.slot),
            removed == (old(registry)@.contains_key(self@.room) && !final(registry)@.contains_key(
                self@.room,
            )),
    {
        registry.leave(self.subscription)
    }
}

/// Lag does not end a session. A lag notice is passed over, whatever the
/// number of lost events: the next step is never to stop.
pub proof fn lemma_lag_is_passed_over(missed: u64)
    ensures
        outbound_of(DeliveryView::Lagged(missed)) == OutboundView::Skip(missed),
        !(outbound_of(DeliveryView::Lagged(missed)) is Stop),
{
}

/// Validation. A chat whose trimmed text is empty or longer than the
/// session's limit is dropped: it yields no draft, so it is neither persisted
/// nor published, and it changes nothing in the session.
pub proof fn lemma_invalid_chat_is_dropped(session: SessionView, message: Seq<char>)
    requires
        !acceptable(trimmed(message), session.max_text_len),
    ensures
        planned(session, Ok(CommandView::Chat { message })) == InboundView::Drop(
            ProtocolError::InvalidLength,
        ),
        renamed(session, Ok(CommandView::Chat { message })) == session,
{
}

/// Every draft that comes of a chat holds an acceptable text, stamped with
/// the session's own identity.
pub proof fn lemma_chat_draft_is_valid(session: SessionView, message: Seq<char>)
    ensures
        planned(session, Ok(CommandView::Chat { message })) matches InboundView::Persist(draft)
            ==> {
            &&& draft.content.len() > 0
            &&& utf8_len(draft.content) <= session.max_text_len
            &&& draft.author == session.user_id
            &&& draft.username == session.username
            &&& draft.chat_id == session.chat_id
        },
{
}

} // verus!
