//! The wire codec: client commands in, chat events out.
//!
//! A client sends one JSON object per frame, `{"type":"join","username":..}`
//! or `{"type":"chat","message":..}`. The server writes one JSON object per
//! event, `{"id":..,"username":..,"text":..,"ts":..}`.

use crate::ids::{format_uuid, uuid_text};
use crate::json::{
    json_document, json_member, json_quoted, json_text, member, parse_document, quote, text_of,
};
use crate::schemas::{ClientKind, CommandView, MessagePayload, PayloadView, ProtocolError, text_view};
use serde_json::Value;
use vstd::prelude::*;

verus! {

/// The decimal digit for `digit`.
pub open spec fn digit_char(digit: nat) -> char
    recommends
        digit < 10,
{
    if digit == 0 {
        '0'
    } else if digit == 1 {
        '1'
    } else if digit == 2 {
        '2'
    } else if digit == 3 {
        '3'
    } else if digit == 4 {
        '4'
    } else if digit == 5 {
        '5'
    } else if digit == 6 {
        '6'
    } else if digit == 7 {
        '7'
    } else if digit == 8 {
        '8'
    } else {
        '9'
    }
}

/// The decimal numeral of `value`, without leading zeros.
pub open spec fn decimal(value: nat) -> Seq<char>
    decreases value,
{
    if value < 10 {
        seq![digit_char(value)]
    } else {
        decimal(value / 10).push(digit_char(value % 10))
    }
}

fn digit_text(digit: u64) -> (text: &'static str)
    requires
        digit < 10,
    ensures
        text@ == seq![digit_char(digit as nat)],
{
    proof {
        reveal_strlit("0");
        reveal_strlit("1");
        reveal_strlit("2");
        reveal_strlit("3");
        reveal_strlit("4");
        reveal_strlit("5");
        reveal_strlit("6");
        reveal_strlit("7");
        reveal_strlit("8");
        reveal_strlit("9");
    }
    let text = if digit == 0 {
        "0"
    } else if digit == 1 {
        "1"
    } else if digit == 2 {
        "2"
    } else if digit == 3 {
        "3"
    } else if digit == 4 {
        "4"
    } else if digit == 5 {
        "5"
    } else if digit == 6 {
        "6"
    } else if digit == 7 {
        "7"
    } else if digit == 8 {
        "8"
    } else {
        "9"
    };
    assert(text@ =~= seq![digit_char(digit as nat)]);
    text
}

/// Writes `value` as a decimal numeral.
pub fn decimal_text(value: u64) -> (text: String)
    ensures
        text@ == decimal(value as nat),
    decreases value,
{
    if value < 10 {
        String::from_str(digit_text(value))
    } else {
        let mut text = decimal_text(value / 10);
        let ghost front = text@;
        text.append(digit_text(value % 10));
        assert(text@ =~= front.push(digit_char((value % 10) as nat)));
        text
    }
}

/// The text of a chat event on the wire.
pub open spec fn encoded(event: PayloadView) -> Seq<char> {
    "{\"id\":"@ + json_quoted(uuid_text(event.id)) + ",\"username\":"@ + json_quoted(
        event.username,
    ) + ",\"text\":"@ + json_quoted(event.text) + ",\"ts\":"@ + decimal(event.ts as nat) + "}"@
}

/// Writes `event` as one JSON object with the members `id`, `username`,
/// `text` and `ts`, in this order.
pub fn encode_event(event: &MessagePayload) -> (text: String)
    ensures
        text@ == encoded(event@),
{
    let mut text = String::from_str("{\"id\":");
    let id = format_uuid(event.id);
    text.append(quote(id.as_str()).as_str());
    text.append(",\"username\":");
    text.append(quote(event.username.as_str()).as_str());
    text.append(",\"text\":");
    text.append(quote(event.text.as_str()).as_str());
    text.append(",\"ts\":");
    text.append(decimal_text(event.ts).as_str());
    text.append("}");
    text
}

/// The command that an object with these three members denotes: `kind` is
/// the text of `type`, and a join needs `username`, a chat `message`.
pub open spec fn command_of(
    kind: Option<Seq<char>>,
    username: Option<Seq<char>>,
    message: Option<Seq<char>>,
) -> Option<CommandView> {
    if kind == Some("join"@) && username is Some {
        Some(CommandView::Join { username: username->0 })
    } else if kind == Some("chat"@) && message is Some {
        Some(CommandView::Chat { message: message->0 })
    } else {
        None
    }
}

/// Builds the command from the texts of the members `type`, `username` and
/// `message` of a frame, each `None` where the frame has no such text.
pub fn classify(kind: Option<String>, username: Option<String>, message: Option<String>) -> (command:
    Result<ClientKind, ProtocolError>)
    ensures
        match command_of(text_view(kind), text_view(username), text_view(message)) {
            Some(expected) => command is Ok && command->Ok_0@ == expected,
            None => command == Err::<ClientKind, ProtocolError>(ProtocolError::MalformedCommand),
        },
{
    proof {
        reveal_strlit("join");
        reveal_strlit("chat");
        assert("join"@[0] == 'j' && "chat"@[0] == 'c');
    }
    match kind {
        None => Err(ProtocolError::MalformedCommand),
        Some(kind) => {
            if kind == String::from_str("join") {
                match username {
                    Some(username) => Ok(ClientKind::Join { username }),
                    None => Err(ProtocolError::MalformedCommand),
                }
            } else if kind == String::from_str("chat") {
                match message {
                    Some(message) => Ok(ClientKind::Chat { message }),
                    None => Err(ProtocolError::MalformedCommand),
                }
            } else {
                Err(ProtocolError::MalformedCommand)
            }
        },
    }
}

/// The text of the member `key` of `document`, if it has one that is a string.
pub open spec fn json_field(document: Value, key: Seq<char>) -> Option<Seq<char>> {
    match json_member(document, key) {
        Some(value) => json_text(value),
        None => None,
    }
}

/// The command that the frame `text` denotes.
pub open spec fn decoded(text: Seq<char>) -> Option<CommandView> {
    match json_document(text) {
        Some(document) => command_of(
            json_field(document, "type"@),
            json_field(document, "username"@),
            json_field(document, "message"@),
        ),
        None => None,
    }
}

fn field(document: &Value, key: &str) -> (text: Option<String>)
    ensures
        text_view(text) == json_field(*document, key@),
{
    match member(document, key) {
        Some(value) => text_of(&value),
        None => None,
    }
}

/// Decodes one frame from a client. A frame that is no JSON object, or whose
/// `type` is neither `"join"` nor `"chat"`, or that lacks the text member its
/// type needs, is malformed.
pub fn decode_command(text: &str) -> (command: Result<ClientKind, ProtocolError>)
    ensures
        match decoded(text@) {
            Some(expected) => command is Ok && command->Ok_0@ == expected,
            None => command == Err::<ClientKind, ProtocolError>(ProtocolError::MalformedCommand),
        },
{
    match parse_document(text) {
        None => Err(ProtocolError::MalformedCommand),
        Some(document) => {
            let kind = field(&document, "type");
            let username = field(&document, "username");
            let message = field(&document, "message");
            classify(kind, username, message)
        },
    }
}

} // verus!
