use chat_rooms::registry::Registry;
use chat_rooms::schemas::{ClientKind, Delivery, MessagePayload, ProtocolError};
use chat_rooms::session::{
    outbound_action, Draft, InboundAction, OutboundAction, Phase, Session, SessionConfig,
    DEFAULT_HISTORY_LIMIT, DEFAULT_MAX_TEXT_LEN, DEFAULT_QUEUE_DEPTH,
};
use chat_rooms::store::{recent_events, record_event, ChatMessage};

const R1: &str = "11111111-1111-1111-1111-111111111111";
const R2: &str = "22222222-2222-2222-2222-222222222222";
const R3: &str = "33333333-3333-3333-3333-333333333333";
const ALICE: u128 = 0xa11ce;
const BOB: u128 = 0xb0b;

struct MemoryStore {
    rows: Vec<ChatMessage>,
    clock: i64,
    fail: bool,
}

fn memory_store() -> MemoryStore {
    MemoryStore { rows: Vec::new(), clock: 1_700_000_000_000, fail: false }
}

fn create(store: &mut MemoryStore, draft: &Draft) -> Option<ChatMessage> {
    if store.fail {
        return None;
    }
    store.clock += 1;
    let id = 0x1000 + store.rows.len() as u128;
    store.rows.push(ChatMessage::new(id, draft.chat_id, draft.author, draft.content.clone(), store.clock));
    Some(ChatMessage::new(id, draft.chat_id, draft.author, draft.content.clone(), store.clock))
}

fn list_recent(store: &MemoryStore, chat_id: u128, limit: usize) -> Vec<ChatMessage> {
    let mut found = Vec::new();
    for row in store.rows.iter().rev() {
        if row.chat_id == chat_id && found.len() < limit {
            let mut copy = ChatMessage::new(row.message_id, row.chat_id, row.user_id, row.content.clone(), row.created_at);
            copy.updated_at = row.updated_at;
            copy.is_deleted = row.is_deleted;
            found.push(copy);
        }
    }
    found
}

fn connect(registry: &mut Registry, store: &MemoryStore, room: &str, user: u128) -> (Session, Vec<String>) {
    let mut session = Session::open(registry, room, user, SessionConfig::standard()).unwrap();
    let records = list_recent(store, session.chat_id(), session.history_limit());
    let frames = session.hydrate(&records);
    (session, frames)
}

fn send(session: &mut Session, registry: &mut Registry, store: &mut MemoryStore, frame: &str) -> bool {
    match session.inbound(frame) {
        InboundAction::Drop(_) => false,
        InboundAction::Persist(draft) => {
            let stored = create(store, &draft);
            session.broadcast(registry, draft, stored)
        }
    }
}

fn chat(text: &str) -> String {
    format!("{{\"type\":\"chat\",\"message\":{}}}", serde_json::to_string(text).unwrap())
}

fn member(frame: &str, key: &str) -> serde_json::Value {
    let value: serde_json::Value = serde_json::from_str(frame).unwrap();
    value[key].clone()
}

fn next_frame(session: &mut Session, registry: &mut Registry) -> String {
    match session.outbound(registry) {
        OutboundAction::Send(frame) => frame,
        other => panic!("expected a frame, got {:?}", other),
    }
}

#[test]
fn scenario_first_message_is_history_for_the_next_client_and_live_for_both() {
    let mut registry = Registry::new(DEFAULT_QUEUE_DEPTH);
    let mut store = memory_store();
    let (mut a, history_a) = connect(&mut registry, &store, R1, ALICE);
    assert!(history_a.is_empty());
    assert!(send(&mut a, &mut registry, &mut store, r#"{"type":"chat","message":"hi"}"#));

    let (mut b, history_b) = connect(&mut registry, &store, R1, BOB);
    assert_eq!(history_b.len(), 1);
    assert_eq!(member(&history_b[0], "text"), "hi");

    assert!(send(&mut a, &mut registry, &mut store, &chat("second")));
    assert!(send(&mut a, &mut registry, &mut store, &chat("third")));

    assert_eq!(member(&next_frame(&mut a, &mut registry), "text"), "hi");
    let a_second = next_frame(&mut a, &mut registry);
    let a_third = next_frame(&mut a, &mut registry);
    let b_second = next_frame(&mut b, &mut registry);
    let b_third = next_frame(&mut b, &mut registry);
    assert_eq!(a_third, b_third);
    assert_eq!(a_second, b_second);
    assert_eq!(member(&a_third, "text"), "third");
    assert_eq!(member(&a_third, "id"), "00000000-0000-0000-0000-000000001002");
    assert_eq!(member(&a_third, "id"), member(&b_third, "id"));
    assert_eq!(a.outbound(&mut registry), OutboundAction::Wait);
    assert_eq!(b.outbound(&mut registry), OutboundAction::Wait);
}

#[test]
fn scenario_history_is_limited_to_the_most_recent_in_chronological_order() {
    let mut registry = Registry::new(DEFAULT_QUEUE_DEPTH);
    let mut store = memory_store();
    let (mut a, _) = connect(&mut registry, &store, R2, ALICE);
    for n in 0..150 {
        assert!(send(&mut a, &mut registry, &mut store, &chat(&format!("message {}", n))));
    }
    assert!(a.close(&mut registry));
    assert!(!registry.contains(R2));

    let (mut c, history) = connect(&mut registry, &store, R2, BOB);
    assert_eq!(history.len(), 100);
    assert_eq!(DEFAULT_HISTORY_LIMIT, 100);
    for (index, frame) in history.iter().enumerate() {
        assert_eq!(member(frame, "text"), format!("message {}", 50 + index));
    }
    let times: Vec<u64> = history.iter().map(|f| member(f, "ts").as_u64().unwrap()).collect();
    assert!(times.windows(2).all(|w| w[0] < w[1]));
    assert_eq!(c.outbound(&mut registry), OutboundAction::Wait);
}

#[test]
fn scenario_paused_client_is_told_of_its_lag_and_resumes() {
    let depth = 8;
    let mut registry = Registry::new(depth);
    let mut store = memory_store();
    let (mut a, _) = connect(&mut registry, &store, R3, ALICE);
    let (mut b, _) = connect(&mut registry, &store, R3, BOB);
    for n in 0..2 * depth {
        assert!(send(&mut a, &mut registry, &mut store, &chat(&format!("m{}", n))));
    }
    assert_eq!(b.outbound(&mut registry), OutboundAction::Skip(depth as u64));
    assert_eq!(b.phase(), Phase::Live);
    for n in depth..2 * depth {
        assert_eq!(member(&next_frame(&mut b, &mut registry), "text"), format!("m{}", n));
    }
    assert_eq!(b.outbound(&mut registry), OutboundAction::Wait);
    assert!(send(&mut a, &mut registry, &mut store, &chat("after the lag")));
    assert_eq!(member(&next_frame(&mut b, &mut registry), "text"), "after the lag");
    assert_eq!(registry.subscriber_count(R3), 2);
}

#[test]
fn connection_to_a_room_id_that_is_no_uuid_is_rejected() {
    let mut registry = Registry::new(4);
    for bad in ["r1", "", "not-a-uuid"] {
        let opened = Session::open(&mut registry, bad, ALICE, SessionConfig::standard());
        assert_eq!(opened.unwrap_err(), ProtocolError::InvalidRoomId);
        assert!(!registry.contains(bad));
    }
    let opened = Session::open_resolved(&mut registry, "anything", None, ALICE, SessionConfig::standard());
    assert_eq!(opened.unwrap_err(), ProtocolError::InvalidRoomId);
    assert!(!registry.contains("anything"));
}

#[test]
fn session_subscribes_before_it_replays_history() {
    let mut registry = Registry::new(4);
    let mut store = memory_store();
    let (mut a, _) = connect(&mut registry, &store, R1, ALICE);
    let mut b = Session::open(&mut registry, R1, BOB, SessionConfig::standard()).unwrap();
    assert_eq!(b.phase(), Phase::Hydrating);
    assert_eq!(b.room(), R1);
    assert_eq!(b.chat_id(), 0x11111111111111111111111111111111);
    assert_eq!(registry.subscriber_count(R1), 2);

    assert!(send(&mut a, &mut registry, &mut store, &chat("in the window")));
    assert_eq!(b.outbound(&mut registry), OutboundAction::Wait);
    assert_eq!(b.outbound(&mut registry), OutboundAction::Wait);

    let records = list_recent(&store, b.chat_id(), b.history_limit());
    let history = b.hydrate(&records);
    assert_eq!(b.phase(), Phase::Live);
    assert_eq!(history.len(), 1);
    assert_eq!(member(&history[0], "text"), "in the window");
    let live = next_frame(&mut b, &mut registry);
    assert_eq!(member(&live, "text"), "in the window");
    assert_eq!(member(&live, "id"), member(&history[0], "id"));
    assert_eq!(b.outbound(&mut registry), OutboundAction::Wait);
}

#[test]
fn history_is_replayed_once() {
    let mut registry = Registry::new(4);
    let mut store = memory_store();
    let (mut a, _) = connect(&mut registry, &store, R1, ALICE);
    send(&mut a, &mut registry, &mut store, &chat("one"));
    let records = list_recent(&store, a.chat_id(), 100);
    assert!(a.hydrate(&records).is_empty());
    assert_eq!(a.phase(), Phase::Live);
}

#[test]
fn history_leaves_out_deleted_messages_and_names_authors_by_id() {
    let mut rows = Vec::new();
    for n in 0..5i64 {
        let mut row = ChatMessage::new(100 + n as u128, 9, ALICE, format!("m{}", n), 1000 + n);
        if n == 1 || n == 4 {
            row.soft_delete(2000);
        }
        rows.push(row);
    }
    rows.reverse();
    let events = recent_events(&rows, 100);
    let texts: Vec<&str> = events.iter().map(|e| e.text.as_str()).collect();
    assert_eq!(texts, ["m0", "m2", "m3"]);
    assert_eq!(events[0].id, 100);
    assert_eq!(events[0].username, "00000000-0000-0000-0000-0000000a11ce");
    assert_eq!(events[0].ts, 1000);

    let limited = recent_events(&rows, 2);
    let texts: Vec<&str> = limited.iter().map(|e| e.text.as_str()).collect();
    assert_eq!(texts, ["m2", "m3"]);
    let limited = recent_events(&rows, 1);
    let texts: Vec<&str> = limited.iter().map(|e| e.text.as_str()).collect();
    assert_eq!(texts, ["m3"]);
    let limited = recent_events(&rows, 3);
    let texts: Vec<&str> = limited.iter().map(|e| e.text.as_str()).collect();
    assert_eq!(texts, ["m0", "m2", "m3"]);
    assert!(recent_events(&rows, 0).is_empty());
    assert!(recent_events(&Vec::new(), 10).is_empty());
    assert_eq!(recent_events(&rows, 5).len(), 3);
    assert_eq!(recent_events(&rows, usize::MAX).len(), 3);
}

#[test]
fn record_event_carries_what_the_store_assigned() {
    let record = ChatMessage::new(77, 9, 0, "x joined the room".to_string(), 1_700_000_000_123);
    assert_eq!(
        record_event(&record),
        MessagePayload {
            id: 77,
            username: "00000000-0000-0000-0000-000000000000".to_string(),
            text: "x joined the room".to_string(),
            ts: 1_700_000_000_123,
        }
    );
    let early = ChatMessage::new(1, 9, 0, String::new(), -1);
    assert_eq!(record_event(&early).ts, u64::MAX);
}

#[test]
fn records_change_only_where_they_may() {
    let mut record = ChatMessage::new(1, 2, 3, "first".to_string(), 10);
    assert_eq!(
        record,
        ChatMessage {
            message_id: 1,
            chat_id: 2,
            user_id: 3,
            content: "first".to_string(),
            created_at: 10,
            updated_at: None,
            is_deleted: false,
        }
    );
    record.edit("second".to_string(), 20);
    assert_eq!(
        record,
        ChatMessage {
            message_id: 1,
            chat_id: 2,
            user_id: 3,
            content: "second".to_string(),
            created_at: 10,
            updated_at: Some(20),
            is_deleted: false,
        }
    );
    record.soft_delete(30);
    assert_eq!(
        record,
        ChatMessage {
            message_id: 1,
            chat_id: 2,
            user_id: 3,
            content: "second".to_string(),
            created_at: 10,
            updated_at: Some(30),
            is_deleted: true,
        }
    );
}

#[test]
fn join_is_announced_by_the_system_and_names_the_session() {
    let mut registry = Registry::new(4);
    let mut store = memory_store();
    let (mut a, _) = connect(&mut registry, &store, R1, ALICE);
    let action = a.inbound(r#"{"type":"join","username":"alice"}"#);
    assert_eq!(
        action,
        InboundAction::Persist(Draft {
            chat_id: 0x11111111111111111111111111111111,
            author: 0,
            username: "[system]".to_string(),
            content: "alice joined the room".to_string(),
        })
    );
    let action = a.inbound(&chat("  hello there \n"));
    assert_eq!(
        action,
        InboundAction::Persist(Draft {
            chat_id: 0x11111111111111111111111111111111,
            author: ALICE,
            username: "alice".to_string(),
            content: "hello there".to_string(),
        })
    );
    assert!(send(&mut a, &mut registry, &mut store, r#"{"type":"join","username":"alice"}"#));
    let frame = next_frame(&mut a, &mut registry);
    assert_eq!(member(&frame, "username"), "[system]");
    assert_eq!(member(&frame, "text"), "alice joined the room");
    assert_eq!(store.rows[0].user_id, 0);
}

#[test]
fn chat_before_any_join_has_no_display_name() {
    let mut registry = Registry::new(4);
    let mut a = Session::open(&mut registry, R1, ALICE, SessionConfig::standard()).unwrap();
    assert_eq!(
        a.plan(Ok(ClientKind::Chat { message: "hi".to_string() })),
        InboundAction::Persist(Draft {
            chat_id: 0x11111111111111111111111111111111,
            author: ALICE,
            username: String::new(),
            content: "hi".to_string(),
        })
    );
}

#[test]
fn empty_and_overlong_chat_is_neither_persisted_nor_published() {
    let mut registry = Registry::new(4);
    let mut store = memory_store();
    let (mut a, _) = connect(&mut registry, &store, R1, ALICE);
    let (mut b, _) = connect(&mut registry, &store, R1, BOB);
    let too_long = "a".repeat(DEFAULT_MAX_TEXT_LEN + 1);
    let too_long_in_bytes = "\u{e9}".repeat(DEFAULT_MAX_TEXT_LEN / 2 + 1);
    for text in ["", " ", "\t\n  \r", "\u{2003}\u{a0}", too_long.as_str(), too_long_in_bytes.as_str()] {
        assert_eq!(a.inbound(&chat(text)), InboundAction::Drop(ProtocolError::InvalidLength));
        assert!(!send(&mut a, &mut registry, &mut store, &chat(text)));
    }
    assert!(store.rows.is_empty());
    assert_eq!(a.outbound(&mut registry), OutboundAction::Wait);
    assert_eq!(b.outbound(&mut registry), OutboundAction::Wait);
}

#[test]
fn chat_of_exactly_the_longest_length_is_accepted() {
    let mut registry = Registry::new(4);
    let mut store = memory_store();
    let (mut a, _) = connect(&mut registry, &store, R1, ALICE);
    let longest = "a".repeat(DEFAULT_MAX_TEXT_LEN);
    assert!(send(&mut a, &mut registry, &mut store, &chat(&longest)));
    let padded = format!("  {}  ", longest);
    assert!(send(&mut a, &mut registry, &mut store, &chat(&padded)));
    let in_bytes = "\u{e9}".repeat(DEFAULT_MAX_TEXT_LEN / 2);
    assert!(send(&mut a, &mut registry, &mut store, &chat(&in_bytes)));
    assert!(send(&mut a, &mut registry, &mut store, &chat("x")));
    assert_eq!(store.rows.len(), 4);
    assert_eq!(store.rows[1].content, longest);
}

#[test]
fn limits_of_a_session_can_be_set() {
    let mut registry = Registry::new(4);
    let config = SessionConfig { history_limit: 2, max_text_len: 3 };
    let mut a = Session::open(&mut registry, R1, ALICE, config).unwrap();
    assert_eq!(a.history_limit(), 2);
    assert_eq!(a.inbound(&chat("abcd")), InboundAction::Drop(ProtocolError::InvalidLength));
    assert!(matches!(a.inbound(&chat("abc")), InboundAction::Persist(_)));
    let rows: Vec<ChatMessage> = (0..5).map(|n| ChatMessage::new(n, 1, 2, format!("m{}", n), 50 - n as i64)).collect();
    let frames = a.hydrate(&rows);
    assert_eq!(frames.len(), 2);
    assert_eq!(member(&frames[0], "text"), "m1");
    assert_eq!(member(&frames[1], "text"), "m0");
}

#[test]
fn malformed_frame_is_dropped_and_the_session_goes_on() {
    let mut registry = Registry::new(4);
    let mut store = memory_store();
    let (mut a, _) = connect(&mut registry, &store, R1, ALICE);
    assert_eq!(a.inbound("garbage"), InboundAction::Drop(ProtocolError::MalformedCommand));
    assert_eq!(a.plan(Err(ProtocolError::MalformedCommand)), InboundAction::Drop(ProtocolError::MalformedCommand));
    assert_eq!(a.phase(), Phase::Live);
    assert!(send(&mut a, &mut registry, &mut store, &chat("still here")));
}

#[test]
fn message_that_was_not_persisted_is_not_published() {
    let mut registry = Registry::new(4);
    let mut store = memory_store();
    let (mut a, _) = connect(&mut registry, &store, R1, ALICE);
    store.fail = true;
    assert!(!send(&mut a, &mut registry, &mut store, &chat("lost")));
    assert_eq!(a.outbound(&mut registry), OutboundAction::Wait);
    store.fail = false;
    assert!(send(&mut a, &mut registry, &mut store, &chat("kept")));
    assert_eq!(member(&next_frame(&mut a, &mut registry), "text"), "kept");
}

#[test]
fn published_event_carries_what_the_store_returned() {
    let mut registry = Registry::new(4);
    let mut a = Session::open(&mut registry, R1, ALICE, SessionConfig::standard()).unwrap();
    a.hydrate(&Vec::new());
    let draft = Draft { chat_id: 1, author: ALICE, username: "alice".to_string(), content: "draft text".to_string() };
    let stored = ChatMessage::new(0xabc, 1, ALICE, "stored text".to_string(), 123456);
    assert!(a.broadcast(&mut registry, draft, Some(stored)));
    assert_eq!(
        next_frame(&mut a, &mut registry),
        r#"{"id":"00000000-0000-0000-0000-000000000abc","username":"alice","text":"stored text","ts":123456}"#
    );
}

#[test]
fn outbound_action_for_each_delivery() {
    let event = MessagePayload { id: 1, username: "u".to_string(), text: "t".to_string(), ts: 2 };
    assert_eq!(
        outbound_action(Delivery::Message(event)),
        OutboundAction::Send(r#"{"id":"00000000-0000-0000-0000-000000000001","username":"u","text":"t","ts":2}"#.to_string())
    );
    assert_eq!(outbound_action(Delivery::Lagged(9)), OutboundAction::Skip(9));
    assert_eq!(outbound_action(Delivery::Empty), OutboundAction::Wait);
    assert_eq!(outbound_action(Delivery::Closed), OutboundAction::Stop);
}

#[test]
fn failed_write_ends_the_session() {
    let mut registry = Registry::new(4);
    let mut a = Session::open(&mut registry, R1, ALICE, SessionConfig::standard()).unwrap();
    a.hydrate(&Vec::new());
    assert!(a.written(true));
    assert_eq!(a.phase(), Phase::Live);
    assert!(!a.written(false));
    assert_eq!(a.phase(), Phase::Closed);
    assert!(!a.written(true));
    assert_eq!(a.outbound(&mut registry), OutboundAction::Stop);
    assert!(a.close(&mut registry));
    assert!(!registry.contains(R1));
}

#[test]
fn closing_a_session_leaves_the_room_to_the_others() {
    let mut registry = Registry::new(4);
    let store = memory_store();
    let (a, _) = connect(&mut registry, &store, R1, ALICE);
    let (b, _) = connect(&mut registry, &store, R1, BOB);
    assert!(!a.close(&mut registry));
    assert_eq!(registry.subscriber_count(R1), 1);
    assert!(b.close(&mut registry));
    assert_eq!(registry.subscriber_count(R1), 0);
}

#[test]
fn standard_limits() {
    let config = SessionConfig::standard();
    assert_eq!(config.history_limit, 100);
    assert_eq!(config.max_text_len, 5000);
    assert_eq!(DEFAULT_QUEUE_DEPTH, 100);
}
