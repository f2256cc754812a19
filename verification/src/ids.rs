//! Identifiers: 128-bit values, read and written as text by `uuid`.

use crate::schemas::ProtocolError;
use vstd::prelude::*;

verus! {

/// The author of messages that the system itself writes, such as join
/// announcements: the nil identifier, which no user has.
pub const SYSTEM_USER_ID: u128 = 0;

/// The identifier that `text` denotes in one of the textual forms of a UUID;
/// `None` where it denotes none.
pub uninterp spec fn uuid_value(text: Seq<char>) -> Option<u128>;

/// The hyphenated lower-case text of the UUID with the value `id`.
pub uninterp spec fn uuid_text(id: u128) -> Seq<char>;

/// `Uuid::parse_str`, with the parsed UUID as the 128-bit value of
/// `Uuid::as_u128`. Any parse error becomes `None`.
#[verifier::external_body]
pub(crate) fn parse_uuid(text: &str) -> (id: Option<u128>)
    ensures
        id == uuid_value(text@),
{
    uuid::Uuid::parse_str(text).ok().map(|id| id.as_u128())
}

/// The `Display` of `Uuid::hyphenated`, for the UUID that `Uuid::from_u128`
/// makes of `id`.
#[verifier::external_body]
pub(crate) fn format_uuid(id: u128) -> (text: String)
    ensures
        text@ == uuid_text(id),
{
    uuid::Uuid::from_u128(id).hyphenated().to_string()
}

/// The store's grouping key for a parsed room id, or the protocol error for
/// a room id that did not parse.
pub fn room_key(parsed: Option<u128>) -> (key: Result<u128, ProtocolError>)
    ensures
        key == match parsed {
            Some(id) => Ok::<u128, ProtocolError>(id),
            None => Err(ProtocolError::InvalidRoomId),
        },
{
    match parsed {
        Some(id) => Ok(id),
        None => Err(ProtocolError::InvalidRoomId),
    }
}

/// Resolves the room id of a connection path to the store's grouping key. A
/// room id that is no UUID is rejected.
pub fn resolve_room(room_id: &str) -> (key: Result<u128, ProtocolError>)
    ensures
        key == match uuid_value(room_id@) {
            Some(id) => Ok::<u128, ProtocolError>(id),
            None => Err(ProtocolError::InvalidRoomId),
        },
{
    room_key(parse_uuid(room_id))
}

} // verus!
