//! What a server is set up with: where it listens, which origins it admits,
//! and its limits. The values come from the environment; reading it is the
//! surrounding program's part.

use crate::text::{fields, split, string_views, trim, trimmed};
use vstd::prelude::*;

verus! {

/// The host that a server binds where none is configured.
pub const DEFAULT_HOST: &'static str = "0.0.0.0";

/// The port that a server binds where none is configured.
pub const DEFAULT_PORT: &'static str = "3000";

/// The origins that are admitted where none are configured.
pub const DEFAULT_ORIGINS: &'static str = "[http://localhost:8080,http://127.0.0.1:8080]";

/// How long a request may take, in seconds.
pub const REQUEST_TIMEOUT_SECS: u64 = 10;

/// The largest request body that is read, in bytes.
pub const BODY_LIMIT: usize = 2 * 1024 * 1024;

/// A configured value, or its default where none is configured.
pub fn configured_or(configured: Option<&str>, default: &str) -> (value: String)
    ensures
        value@ == match configured {
            Some(text) => text@,
            None => default@,
        },
{
    match configured {
        Some(text) => text.to_owned(),
        None => default.to_owned(),
    }
}

/// The address to listen on: host, colon, port.
pub fn listen_address(host: &str, port: &str) -> (address: String)
    ensures
        address@ == host@ + ":"@ + port@,
{
    let mut address = host.to_owned();
    address.append(":");
    address.append(port);
    address
}

/// The origins that a comma-separated list names: its pieces, each without
/// the white space around it.
pub open spec fn listed_origins(list: Seq<char>) -> Seq<Seq<char>> {
    fields(list, ',').map_values(|origin: Seq<char>| trimmed(origin))
}

/// Reads the admitted origins from a comma-separated list.
pub fn allowed_origins(list: &str) -> (origins: Vec<String>)
    ensures
        string_views(origins@) == listed_origins(list@),
{
    let pieces = split(list, ',');
    let mut origins: Vec<String> = Vec::new();
    let mut index: usize = 0;
    while index < pieces.len()
        invariant
            index <= pieces.len(),
            origins@.len() == index,
            forall|i: int| 0 <= i < index ==> (#[trigger] origins@[i])@ == trimmed(pieces@[i]@),
        decreases pieces.len() - index,
    {
        let origin = trim(pieces[index].as_str());
        origins.push(origin.to_owned());
        index += 1;
    }
    assert(string_views(origins@) =~= listed_origins(list@)) by {
        assert(string_views(pieces@) == fields(list@, ','));
        assert forall|i: int| 0 <= i < origins@.len() implies string_views(origins@)[i]
            == listed_origins(list@)[i] by {
            assert(string_views(pieces@)[i] == pieces@[i]@);
        }
    }
    origins
}

} // verus!
