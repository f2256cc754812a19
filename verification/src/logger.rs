//! The plain HTTP service: its request log and its routes.

use crate::json::{json_quoted, quote};
use vstd::prelude::*;

verus! {

/// A service that logs each request before it hands it to the service inside.
#[derive(Debug, Clone)]
pub struct Logger<S> {
    inner: S,
}

impl<S> Logger<S> {
    /// The service inside.
    pub closed spec fn wrapped(&self) -> S {
        self.inner
    }

    /// Wraps `inner`.
    pub fn new(inner: S) -> (logger: Self)
        ensures
            logger.wrapped() == inner,
    {
        Logger { inner }
    }

    /// The service inside.
    pub fn inner(&self) -> (inner: &S)
        ensures
            *inner == self.wrapped(),
    {
        &self.inner
    }

    /// The line that is logged for a request.
    pub fn request_line(&self, method: &str, path: &str) -> (line: String)
        ensures
            line@ == "processing request: "@ + method@ + " "@ + path@,
    {
        let mut line = String::from_str("processing request: ");
        line.append(method);
        line.append(" ");
        line.append(path);
        line
    }
}

/// What answers a request.
#[derive(Debug, Clone, Copy, PartialEq, Eq, Structural)]
pub enum Route {
    /// The liveness probe.
    Ping,
    /// Nothing: the request is answered with status 404 and no body.
    NotFound,
}

/// The route of a request: `GET /ping` is the probe, nothing else is served.
pub open spec fn route_of(method: Seq<char>, path: Seq<char>) -> Route {
    if method == "GET"@ && path == "/ping"@ {
        Route::Ping
    } else {
        Route::NotFound
    }
}

/// Finds the route of a request.
pub fn route(method: &str, path: &str) -> (route: Route)
    ensures
        route == route_of(method@, path@),
{
    if method.to_owned() == String::from_str("GET") && path.to_owned() == String::from_str("/ping") {
        Route::Ping
    } else {
        Route::NotFound
    }
}

/// The JSON body that answers the probe with `reply`: an object with the one
/// member `ping`.
pub fn ping_body(reply: &str) -> (body: String)
    ensures
        body@ == "{\"ping\":"@ + json_quoted(reply@) + "}"@,
{
    let mut body = String::from_str("{\"ping\":");
    body.append(quote(reply).as_str());
    body.append("}");
    body
}

/// The status that answers a request that nothing serves.
pub fn not_found_status() -> (status: u16)
    ensures
        status == 404,
{
    404
}

} // verus!
