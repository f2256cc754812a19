use chat_rooms::server::{
    allowed_origins, configured_or, listen_address, BODY_LIMIT, DEFAULT_HOST, DEFAULT_ORIGINS,
    DEFAULT_PORT, REQUEST_TIMEOUT_SECS,
};
use chat_rooms::store::{cluster_nodes, DEFAULT_NODES};
use chat_rooms::text::{byte_len, split};

#[test]
fn text_is_split_at_every_mark() {
    assert_eq!(split("", ','), [""]);
    assert_eq!(split("a", ','), ["a"]);
    assert_eq!(split(",", ','), ["", ""]);
    assert_eq!(split("a,b", ','), ["a", "b"]);
    assert_eq!(split("a,,b", ','), ["a", "", "b"]);
    assert_eq!(split(",a,", ','), ["", "a", ""]);
    assert_eq!(split(",,,", ','), ["", "", "", ""]);
    assert_eq!(split("a b", ','), ["a b"]);
    assert_eq!(split("h\u{e9}llo:w\u{f6}rld:\u{1f600}", ':'), ["h\u{e9}llo", "w\u{f6}rld", "\u{1f600}"]);
    assert_eq!(split("a\u{e9}b\u{e9}", '\u{e9}'), ["a", "b", ""]);
    for text in ["", "x", ",x,,y,", "no marks here", ",,"] {
        let expected: Vec<&str> = text.split(',').collect();
        assert_eq!(split(text, ','), expected);
    }
}

#[test]
fn cluster_nodes_are_the_entries_that_are_not_empty() {
    assert_eq!(cluster_nodes(DEFAULT_NODES), ["scylla-node-2:9042", "scylla-node-3:9042"]);
    assert_eq!(cluster_nodes("a:1"), ["a:1"]);
    assert_eq!(cluster_nodes("a:1,,b:2,"), ["a:1", "b:2"]);
    assert_eq!(cluster_nodes(",,,").len(), 0);
    assert_eq!(cluster_nodes("").len(), 0);
    assert_eq!(cluster_nodes(" ,a"), [" ", "a"]);
}

#[test]
fn origins_are_trimmed() {
    assert_eq!(
        allowed_origins("http://localhost:8080, http://127.0.0.1:8080"),
        ["http://localhost:8080", "http://127.0.0.1:8080"]
    );
    assert_eq!(
        allowed_origins(DEFAULT_ORIGINS),
        ["[http://localhost:8080", "http://127.0.0.1:8080]"]
    );
    assert_eq!(allowed_origins(" a ,\tb\n,, c d "), ["a", "b", "", "c d"]);
    assert_eq!(allowed_origins(""), [""]);
}

#[test]
fn configured_value_wins_over_the_default() {
    assert_eq!(configured_or(Some("10.0.0.1"), DEFAULT_HOST), "10.0.0.1");
    assert_eq!(configured_or(None, DEFAULT_HOST), "0.0.0.0");
    assert_eq!(configured_or(None, DEFAULT_PORT), "3000");
    assert_eq!(configured_or(Some(""), DEFAULT_PORT), "");
}

#[test]
fn listen_address_is_host_colon_port() {
    assert_eq!(listen_address("0.0.0.0", "3000"), "0.0.0.0:3000");
    assert_eq!(listen_address("", ""), ":");
    assert_eq!(REQUEST_TIMEOUT_SECS, 10);
    assert_eq!(BODY_LIMIT, 2_097_152);
}

#[test]
fn byte_len_counts_utf8_bytes() {
    assert_eq!(byte_len(""), 0);
    assert_eq!(byte_len("abc"), 3);
    assert_eq!(byte_len("\u{e9}"), 2);
    assert_eq!(byte_len("\u{20ac}"), 3);
    assert_eq!(byte_len("\u{1f600}"), 4);
}
