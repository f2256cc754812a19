//! The reverse proxy's decisions: which backend serves a host, and which
//! headers tell the backend about the client.

use crate::text::{first_at, lemma_first_at};
use vstd::prelude::*;
use vstd::string::*;

verus! {

/// The status that answers a request for a host that no backend serves.
pub const UNKNOWN_HOST_STATUS: u16 = 404;

/// The status that answers when the backend cannot be reached.
pub const BAD_GATEWAY_STATUS: u16 = 502;

/// How long one connection attempt to a backend may take, in seconds.
pub const CONNECTION_TIMEOUT_SECS: u64 = 5;

/// How long connecting to a backend may take in all, in seconds.
pub const TOTAL_CONNECTION_TIMEOUT_SECS: u64 = 10;

/// The host name in a `Host` header: what stands before the port.
pub open spec fn host_of(header: Seq<char>) -> Seq<char> {
    header.take(first_at(header, ':'))
}

/// The host that a request names: none where it has no usable `Host` header.
pub open spec fn requested_host(header: Option<&str>) -> Seq<char> {
    match header {
        Some(header) => host_of(header@),
        None => Seq::empty(),
    }
}

/// A header names the host `name`, which holds no colon, exactly if it
/// starts with `name` and goes on, if at all, with a colon.
pub proof fn lemma_host_is(header: Seq<char>, name: Seq<char>)
    requires
        forall|i: int| 0 <= i < name.len() ==> #[trigger] name[i] != ':',
    ensures
        host_of(header) == name <==> {
            &&& name.len() <= header.len()
            &&& header.take(name.len() as int) == name
            &&& (header.len() == name.len() || header[name.len() as int] == ':')
        },
{
    lemma_first_at(header, ':');
    let k = first_at(header, ':');
    let n = name.len() as int;
    if host_of(header) == name {
        assert(header.take(k).len() == k);
    }
    if n <= header.len() && header.take(n) == name && (header.len() == n || header[n] == ':') {
        if k < n {
            assert(header[k] == header.take(n)[k]);
        }
        assert(k == n);
    }
}

fn names_host(header: &str, name: &str) -> (named: bool)
    requires
        forall|i: int| 0 <= i < name@.len() ==> #[trigger] name@[i] != ':',
    ensures
        named == (host_of(header@) == name@),
{
    proof {
        lemma_host_is(header@, name@);
    }
    let wanted = name.unicode_len();
    let given = header.unicode_len();
    if given < wanted {
        return false;
    }
    let start = header.substring_char(0, wanted);
    assert(start@ =~= header@.take(wanted as int));
    if start.to_owned() != name.to_owned() {
        return false;
    }
    if given == wanted {
        return true;
    }
    header.get_char(wanted) == ':'
}

/// The backends that the proxy knows.
#[derive(Debug, Clone, Copy, PartialEq, Eq, Structural)]
pub enum Backend {
    Rust,
    Python,
}

/// The backend that serves `host`, if any.
pub open spec fn backend_for(host: Seq<char>) -> Option<Backend> {
    if host == "rust.localhost"@ {
        Some(Backend::Rust)
    } else if host == "python.localhost"@ {
        Some(Backend::Python)
    } else {
        None
    }
}

/// Routes requests to the backend that their `Host` header names.
#[derive(Debug)]
pub struct ProxyService {
    python_backend: (&'static str, u16),
    rust_backend: (&'static str, u16),
}

impl ProxyService {
    /// The address of `backend`: its host and its port.
    pub closed spec fn address(&self, backend: Backend) -> (Seq<char>, u16) {
        match backend {
            Backend::Rust => (self.rust_backend.0@, self.rust_backend.1),
            Backend::Python => (self.python_backend.0@, self.python_backend.1),
        }
    }

    /// A proxy for the two local backends: port 3000 for `rust.localhost`,
    /// port 3002 for `python.localhost`.
    pub fn new() -> (service: Self)
        ensures
            service.address(Backend::Rust) == ("127.0.0.1"@, 3000u16),
            service.address(Backend::Python) == ("127.0.0.1"@, 3002u16),
    {
        Self { python_backend: ("127.0.0.1", 3002), rust_backend: ("127.0.0.1", 3000) }
    }

    /// The address of `backend`.
    pub fn backend_address(&self, backend: Backend) -> (address: (&'static str, u16))
        ensures
            (address.0@, address.1) == self.address(backend),
    {
        match backend {
            Backend::Rust => self.rust_backend,
            Backend::Python => self.python_backend,
        }
    }

    /// Chooses the backend for a request by the host name in its `Host`
    /// header, without the port. A request that names no known host gets
    /// none: it is answered with `UNKNOWN_HOST_STATUS`.
    pub fn upstream_peer(&self, host_header: Option<&str>) -> (peer: Option<(&'static str, u16)>)
        ensures
            match backend_for(requested_host(host_header)) {
                Some(backend) => peer matches Some(address) && (address.0@, address.1)
                    == self.address(backend),
                None => peer is None,
            },
    {
        match choose_backend(host_header) {
            Some(backend) => Some(self.backend_address(backend)),
            None => None,
        }
    }
}

impl Default for ProxyService {
    fn default() -> (service: Self)
        ensures
            service.address(Backend::Rust) == ("127.0.0.1"@, 3000u16),
            service.address(Backend::Python) == ("127.0.0.1"@, 3002u16),
    {
        Self::new()
    }
}

/// Chooses the backend that serves the host named in a `Host` header.
pub fn choose_backend(host_header: Option<&str>) -> (backend: Option<Backend>)
    ensures
        backend == backend_for(requested_host(host_header)),
{
    proof {
        reveal_strlit("rust.localhost");
        reveal_strlit("python.localhost");
    }
    match host_header {
        None => {
            assert("rust.localhost"@.len() == 14 && "python.localhost"@.len() == 16);
            None
        },
        Some(header) => {
            if names_host(header, "rust.localhost") {
                Some(Backend::Rust)
            } else if names_host(header, "python.localhost") {
                Some(Backend::Python)
            } else {
                None
            }
        },
    }
}

/// A header: its name and its value.
#[derive(Debug, PartialEq, Eq)]
pub struct Header {
    pub name: String,
    pub value: String,
}

/// The views of a list of headers.
pub open spec fn header_views(headers: Seq<Header>) -> Seq<(Seq<char>, Seq<char>)> {
    Seq::new(headers.len(), |i: int| (headers[i].name@, headers[i].value@))
}

/// The client's address as the backend is told it.
pub open spec fn client_text(client_addr: Option<&str>) -> Seq<char> {
    match client_addr {
        Some(address) => address@,
        None => "unknown"@,
    }
}

/// The scheme that the client used.
pub open spec fn scheme_text(secure: bool) -> Seq<char> {
    if secure {
        "https"@
    } else {
        "http"@
    }
}

/// The headers that tell the backend about the client.
pub open spec fn forwarded(client_addr: Option<&str>, secure: bool, host: Option<&str>) -> Seq<
    (Seq<char>, Seq<char>),
> {
    let always = seq![
        ("X-Forwarded-For"@, client_text(client_addr)),
        ("X-Real-IP"@, client_text(client_addr)),
        ("X-Forwarded-Proto"@, scheme_text(secure)),
    ];
    match host {
        Some(host) => always.push(("X-Forwarded-Host"@, host@)),
        None => always,
    }
}

fn header(name: &str, value: &str) -> (made: Header)
    ensures
        made.name@ == name@,
        made.value@ == value@,
{
    Header { name: name.to_owned(), value: value.to_owned() }
}

/// The headers to set on the request to the backend: the client's address,
/// or `unknown`, as `X-Forwarded-For` and `X-Real-IP`; the scheme as
/// `X-Forwarded-Proto`; and the request's own host, if it has one, as
/// `X-Forwarded-Host`.
pub fn forwarded_headers(client_addr: Option<&str>, secure: bool, host: Option<&str>) -> (headers:
    Vec<Header>)
    ensures
        header_views(headers@) == forwarded(client_addr, secure, host),
{
    let client = match client_addr {
        Some(address) => address,
        None => "unknown",
    };
    let scheme = if secure {
        "https"
    } else {
        "http"
    };
    let mut headers: Vec<Header> = Vec::new();
    headers.push(header("X-Forwarded-For", client));
    headers.push(header("X-Real-IP", client));
    headers.push(header("X-Forwarded-Proto", scheme));
    match host {
        Some(host) => {
            headers.push(header("X-Forwarded-Host", host));
        },
        None => {},
    }
    assert(header_views(headers@) =~= forwarded(client_addr, secure, host));
    headers
}

/// The status to log for a request: that of the response, or 0 where none
/// was written.
pub fn logged_status(response_status: Option<u16>) -> (status: u16)
    ensures
        status == match response_status {
            Some(code) => code,
            None => 0,
        },
{
    match response_status {
        Some(code) => code,
        None => 0,
    }
}

/// The explanation that answers, with `BAD_GATEWAY_STATUS`, when the backend
/// cannot be reached for `reason`.
pub fn bad_gateway(reason: &str) -> (explanation: String)
    ensures
        explanation@ == "Bad Gateway: "@ + reason@,
{
    String::from_str("Bad Gateway: ").concat(reason)
}

} // verus!
