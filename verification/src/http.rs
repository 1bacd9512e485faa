//! The HTTP surface: which handler a request reaches and what each handler
//! answers.

use crate::text::same_text;
use vstd::prelude::*;

verus! {

/// Status of a successful answer.
pub const STATUS_OK: u16 = 200;

/// Status of the answer to a request that no route matches.
pub const STATUS_NOT_FOUND: u16 = 404;

/// Status of the answer to a request that was not handled within the
/// request timeout.
pub const STATUS_REQUEST_TIMEOUT: u16 = 408;

/// The handler that a request reaches.
#[derive(Clone, Copy, Debug, PartialEq, Eq, Structural)]
pub enum Route {
    /// The health check.
    Health,
    /// The catch-all.
    NotFound,
}

/// Body of the health check's answer.
#[derive(Clone, Copy, Debug, PartialEq, Eq, Structural)]
pub struct HealthcheckResponse {
    /// The process answers.
    pub ok: bool,
    /// Whether the database answered the liveness query; `None` where the
    /// service has no database.
    pub db_ok: Option<bool>,
}

/// The handler for a request: `GET /health` reaches the health check, every
/// other method or path the catch-all.
pub open spec fn route_of(method: Seq<char>, path: Seq<char>) -> Route {
    if method == "GET"@ && path == "/health"@ {
        Route::Health
    } else {
        Route::NotFound
    }
}

/// The body of the health check's answer, written out: for a service
/// without a database, with a database that answers, and with one that does
/// not.
pub open spec fn health_body(db_healthy: Option<bool>) -> Seq<char> {
    match db_healthy {
        None => "{\"ok\":true}"@,
        Some(true) => "{\"ok\":true,\"db_ok\":true}"@,
        Some(false) => "{\"ok\":true,\"db_ok\":false}"@,
    }
}

/// A boolean as JSON.
pub open spec fn json_bool(b: bool) -> Seq<char> {
    if b {
        "true"@
    } else {
        "false"@
    }
}

/// A health check body as compact JSON: the member `ok`, then the member
/// `db_ok` where there is one.
pub open spec fn json_body(response: HealthcheckResponse) -> Seq<char> {
    match response.db_ok {
        Some(db_ok) => "{\"ok\":"@ + json_bool(response.ok) + ",\"db_ok\":"@ + json_bool(db_ok)
            + "}"@,
        None => "{\"ok\":"@ + json_bool(response.ok) + "}"@,
    }
}

/// For every result of the liveness query, the body that the health check
/// answers with is the text written out in [`health_body`].
pub proof fn lemma_health_body(db_healthy: Option<bool>)
    ensures
        json_body(HealthcheckResponse { ok: true, db_ok: db_healthy }) == health_body(db_healthy),
{
    reveal_strlit("{\"ok\":");
    reveal_strlit(",\"db_ok\":");
    reveal_strlit("}");
    reveal_strlit("true");
    reveal_strlit("false");
    reveal_strlit("{\"ok\":true}");
    reveal_strlit("{\"ok\":true,\"db_ok\":true}");
    reveal_strlit("{\"ok\":true,\"db_ok\":false}");
    assert(json_body(HealthcheckResponse { ok: true, db_ok: db_healthy }) =~= health_body(
        db_healthy,
    ));
}

/// Picks the handler for a request from its method and the path of its URI.
pub fn route(method: &str, path: &str) -> (r: Route)
    ensures
        r == route_of(method@, path@),
{
    if same_text(method, "GET") && same_text(path, "/health") {
        Route::Health
    } else {
        Route::NotFound
    }
}

/// The health check. `db_healthy` is the result of the liveness query,
/// `None` where the service has no database. The answer is always 200 and
/// `ok` is always true: the database's state shows in `db_ok` alone.
pub fn healthcheck(db_healthy: Option<bool>) -> (r: (u16, HealthcheckResponse))
    ensures
        r.0 == STATUS_OK,
        r.1 == (HealthcheckResponse { ok: true, db_ok: db_healthy }),
{
    (STATUS_OK, HealthcheckResponse { ok: true, db_ok: db_healthy })
}

/// The catch-all: 404 with a plain-text body.
pub fn not_found_handler() -> (r: (u16, &'static str))
    ensures
        r.0 == STATUS_NOT_FOUND,
        r.1@ == "Page not found"@,
{
    (STATUS_NOT_FOUND, "Page not found")
}

/// Writes a boolean as JSON.
fn json_bool_text(b: bool) -> (text: &'static str)
    ensures
        text@ == json_bool(b),
{
    if b {
        "true"
    } else {
        "false"
    }
}

impl HealthcheckResponse {
    /// Writes the body as compact JSON.
    pub fn to_json(&self) -> (text: String)
        ensures
            text@ == json_body(*self),
    {
        let head = String::from_str("{\"ok\":").concat(json_bool_text(self.ok));
        match self.db_ok {
            Some(db_ok) => head.concat(",\"db_ok\":").concat(json_bool_text(db_ok)).concat("}"),
            None => head.concat("}"),
        }
    }
}

} // verus!
