use chat_rooms::codec::{classify, decimal_text, decode_command, encode_event};
use chat_rooms::ids::{resolve_room, room_key, SYSTEM_USER_ID};
use chat_rooms::store::{record_event, ChatMessage};
use chat_rooms::schemas::{ClientKind, MessagePayload, ProtocolError};

#[test]
fn join_frame_is_decoded() {
    assert_eq!(
        decode_command(r#"{"type":"join","username":"bob"}"#),
        Ok(ClientKind::Join { username: "bob".to_string() })
    );
}

#[test]
fn chat_frame_is_decoded() {
    assert_eq!(
        decode_command(r#"{"type":"chat","message":"hi"}"#),
        Ok(ClientKind::Chat { message: "hi".to_string() })
    );
}

#[test]
fn escapes_and_spacing_in_a_frame_are_read() {
    assert_eq!(
        decode_command("  { \"message\" : \"a\\n\\\"b\\\" \\u00e9\" ,\n \"type\" : \"chat\" }  "),
        Ok(ClientKind::Chat { message: "a\n\"b\" \u{e9}".to_string() })
    );
}

#[test]
fn members_that_a_command_does_not_need_are_ignored() {
    assert_eq!(
        decode_command(r#"{"type":"chat","message":"hi","username":"mallory","user_id":"x","ts":5}"#),
        Ok(ClientKind::Chat { message: "hi".to_string() })
    );
    assert_eq!(
        decode_command(r#"{"type":"join","username":"bob","message":7}"#),
        Ok(ClientKind::Join { username: "bob".to_string() })
    );
}

#[test]
fn frames_that_are_no_command_are_malformed() {
    for frame in [
        "",
        "hello",
        "{",
        "null",
        "42",
        "\"join\"",
        "[]",
        "{}",
        r#"["join","bob"]"#,
        r#"{"type":"join"}"#,
        r#"{"type":"chat"}"#,
        r#"{"type":"join","message":"hi"}"#,
        r#"{"type":"chat","username":"bob"}"#,
        r#"{"type":"chat","message":5}"#,
        r#"{"type":"chat","message":null}"#,
        r#"{"type":"join","username":["bob"]}"#,
        r#"{"type":"leave","username":"bob"}"#,
        r#"{"type":"JOIN","username":"bob"}"#,
        r#"{"type":5,"username":"bob","message":"hi"}"#,
        r#"{"username":"bob","message":"hi"}"#,
        r#"{"join":{"username":"bob"}}"#,
        r#"{"type":"chat","message":"hi"} trailing"#,
    ] {
        assert_eq!(decode_command(frame), Err(ProtocolError::MalformedCommand), "{}", frame);
    }
}

#[test]
fn classify_goes_by_the_type() {
    let text = |s: &str| Some(s.to_string());
    assert_eq!(
        classify(text("join"), text("bob"), text("hi")),
        Ok(ClientKind::Join { username: "bob".to_string() })
    );
    assert_eq!(
        classify(text("chat"), text("bob"), text("hi")),
        Ok(ClientKind::Chat { message: "hi".to_string() })
    );
    assert_eq!(classify(text("join"), None, text("hi")), Err(ProtocolError::MalformedCommand));
    assert_eq!(classify(text("chat"), text("bob"), None), Err(ProtocolError::MalformedCommand));
    assert_eq!(classify(None, text("bob"), text("hi")), Err(ProtocolError::MalformedCommand));
    assert_eq!(classify(text(""), text("bob"), text("hi")), Err(ProtocolError::MalformedCommand));
    assert_eq!(classify(text("join "), text("bob"), text("hi")), Err(ProtocolError::MalformedCommand));
}

#[test]
fn event_text_is_exact() {
    let event = MessagePayload {
        id: 0x550e8400e29b41d4a716446655440000,
        username: "al\"ice".to_string(),
        text: "hi\n\\".to_string(),
        ts: 1700000000000,
    };
    assert_eq!(
        encode_event(&event),
        r#"{"id":"550e8400-e29b-41d4-a716-446655440000","username":"al\"ice","text":"hi\n\\","ts":1700000000000}"#
    );
}

#[test]
fn event_text_of_the_smallest_and_largest_values() {
    let smallest = MessagePayload { id: 0, username: String::new(), text: String::new(), ts: 0 };
    assert_eq!(
        encode_event(&smallest),
        r#"{"id":"00000000-0000-0000-0000-000000000000","username":"","text":"","ts":0}"#
    );
    let largest = MessagePayload { id: u128::MAX, username: "u".to_string(), text: "t".to_string(), ts: u64::MAX };
    assert_eq!(
        encode_event(&largest),
        r#"{"id":"ffffffff-ffff-ffff-ffff-ffffffffffff","username":"u","text":"t","ts":18446744073709551615}"#
    );
}

#[test]
fn event_text_is_read_back_by_serde_json() {
    let event = MessagePayload {
        id: 7,
        username: "z\u{fc}rich \u{1f600}".to_string(),
        text: "tab\there \u{0001} </script>".to_string(),
        ts: 42,
    };
    let value: serde_json::Value = serde_json::from_str(&encode_event(&event)).unwrap();
    let object = value.as_object().unwrap();
    assert_eq!(object.len(), 4);
    assert_eq!(value["id"].as_str(), Some("00000000-0000-0000-0000-000000000007"));
    assert_eq!(value["username"].as_str(), Some("z\u{fc}rich \u{1f600}"));
    assert_eq!(value["text"].as_str(), Some("tab\there \u{0001} </script>"));
    assert_eq!(value["ts"].as_u64(), Some(42));
}

#[test]
fn decimal_text_is_exact() {
    assert_eq!(decimal_text(0), "0");
    assert_eq!(decimal_text(7), "7");
    assert_eq!(decimal_text(9), "9");
    assert_eq!(decimal_text(10), "10");
    assert_eq!(decimal_text(1234567890), "1234567890");
    assert_eq!(decimal_text(1000000), "1000000");
    assert_eq!(decimal_text(u64::MAX), "18446744073709551615");
    for value in [11u64, 99, 100, 101, 5000, 65535, 4294967296] {
        assert_eq!(decimal_text(value), value.to_string());
    }
}

#[test]
fn room_id_must_be_a_uuid() {
    assert_eq!(
        resolve_room("550e8400-e29b-41d4-a716-446655440000"),
        Ok(0x550e8400e29b41d4a716446655440000)
    );
    assert_eq!(
        resolve_room("550E8400-E29B-41D4-A716-446655440000"),
        Ok(0x550e8400e29b41d4a716446655440000)
    );
    assert_eq!(
        resolve_room("550e8400e29b41d4a716446655440000"),
        Ok(0x550e8400e29b41d4a716446655440000)
    );
    assert_eq!(resolve_room("00000000-0000-0000-0000-000000000000"), Ok(0));
    for bad in ["", "r1", "lobby", "550e8400-e29b-41d4-a716", "550e8400-e29b-41d4-a716-44665544000g", " 550e8400-e29b-41d4-a716-446655440000"] {
        assert_eq!(resolve_room(bad), Err(ProtocolError::InvalidRoomId), "{}", bad);
    }
}

#[test]
fn room_key_of_a_parse() {
    assert_eq!(room_key(Some(5)), Ok(5));
    assert_eq!(room_key(None), Err(ProtocolError::InvalidRoomId));
}

#[test]
fn identifiers_are_written_hyphenated_in_lower_case() {
    let id_text = |id: u128| record_event(&ChatMessage::new(1, 2, id, String::new(), 0)).username;
    assert_eq!(id_text(0xA1A2A3A4B1B2C1C2D1D2D3D4D5D6D7D8), "a1a2a3a4-b1b2-c1c2-d1d2-d3d4d5d6d7d8");
    assert_eq!(id_text(SYSTEM_USER_ID), "00000000-0000-0000-0000-000000000000");
    assert_eq!(uuid::Uuid::nil().as_u128(), SYSTEM_USER_ID);
    assert_eq!(resolve_room(&id_text(12345678901234567890)), Ok(12345678901234567890));
}
