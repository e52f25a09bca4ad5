//! The request router: which answer a request gets, and what the activity
//! log records of it.

use vstd::prelude::*;
use vstd::string::*;
use crate::activity_log::{log_request, logged, ActivityLog};
use crate::actuator::ActuatorFault;

verus! {

/// Request methods that the router tells apart.
#[derive(Debug, Clone, Copy, PartialEq, Eq, Structural)]
pub enum Method {
    Get,
    Head,
    Post,
    Put,
    Delete,
    Options,
    Patch,
    /// Any other method.
    Other,
}

/// The three ways a request can end.
#[derive(Debug, Clone, Copy, PartialEq, Eq, Structural)]
pub enum Route {
    /// The health check.
    Health,
    /// The relay trigger.
    Pulse,
    /// Anything else.
    NotFound,
}

/// Path of the health check.
pub open spec fn health_path() -> Seq<char> {
    seq!['/', 'h', 'e', 'a', 'l', 't', 'h']
}

/// Path of the relay trigger.
pub open spec fn pulse_path() -> Seq<char> {
    seq!['/', 'p', 'u', 's', 'h']
}

/// The route of a request, by method and path.
pub open spec fn route_of(method: Method, path: Seq<char>) -> Route {
    if method == Method::Get && path == health_path() {
        Route::Health
    } else if method == Method::Get && path == pulse_path() {
        Route::Pulse
    } else {
        Route::NotFound
    }
}

/// `str`'s `==` from std: two string slices are equal exactly when they hold
/// the same characters.
#[verifier::external_body]
fn same_text(left: &str, right: &str) -> (same: bool)
    ensures
        same == (left@ == right@),
{
    left == right
}

/// Finds the route of a request.
pub fn route(method: Method, path: &str) -> (found: Route)
    ensures
        found == route_of(method, path@),
{
    proof {
        reveal_strlit("/health");
        reveal_strlit("/push");
        assert("/health"@ =~= health_path());
        assert("/push"@ =~= pulse_path());
    }
    if method == Method::Get && same_text(path, "/health") {
        Route::Health
    } else if method == Method::Get && same_text(path, "/push") {
        Route::Pulse
    } else {
        Route::NotFound
    }
}

/// Status of a request that was served.
pub const STATUS_OK: u16 = 200;

/// Status of a request that matched no route.
pub const STATUS_NOT_FOUND: u16 = 404;

/// Status of a trigger whose pulse failed.
pub const STATUS_SERVER_ERROR: u16 = 500;

/// What goes back to the requester.
#[derive(Debug)]
pub struct Response {
    pub status: u16,
    pub body: String,
}

/// Body of the health check's answer: `{"status":"up"}`.
pub open spec fn health_body() -> Seq<char> {
    seq!['{', '"', 's', 't', 'a', 't', 'u', 's', '"', ':', '"', 'u', 'p', '"', '}']
}

/// Body of a successful trigger's answer: `{"success":true}`.
pub open spec fn success_body() -> Seq<char> {
    seq!['{', '"', 's', 'u', 'c', 'c', 'e', 's', 's', '"', ':', 't', 'r', 'u', 'e', '}']
}

/// Answers the health check: status 200 with the health body, and one new
/// log entry with status 200 and the health path.
pub fn handle_health(log: &mut ActivityLog) -> (response: Response)
    ensures
        response.status == STATUS_OK,
        response.body@ == health_body(),
        logged(old(log)@, final(log)@, STATUS_OK, health_path()),
{
    proof {
        reveal_strlit("{\"status\":\"up\"}");
        reveal_strlit("/health");
        assert("{\"status\":\"up\"}"@ =~= health_body());
        assert("/health"@ =~= health_path());
    }
    let response = Response { status: STATUS_OK, body: String::from_str("{\"status\":\"up\"}") };
    log_request(log, STATUS_OK, "/health");
    response
}

/// Answers the relay trigger once its pulse is over.
///
/// After a successful pulse: status 200 with the success body, and one new
/// log entry with status 200 and the trigger path.  After a failed pulse:
/// status 500 with an empty body, so that nothing in the answer claims
/// success, and the log stays as it was.
pub fn handle_pulse(log: &mut ActivityLog, outcome: Result<(), ActuatorFault>) -> (response:
    Response)
    ensures
        outcome is Ok ==> response.status == STATUS_OK && response.body@ == success_body()
            && logged(old(log)@, final(log)@, STATUS_OK, pulse_path()),
        outcome is Err ==> response.status == STATUS_SERVER_ERROR && response.body@
            == Seq::<char>::empty() && final(log)@ == old(log)@,
{
    match outcome {
        Ok(()) => {
            proof {
                reveal_strlit("{\"success\":true}");
                reveal_strlit("/push");
                assert("{\"success\":true}"@ =~= success_body());
                assert("/push"@ =~= pulse_path());
            }
            let response = Response {
                status: STATUS_OK,
                body: String::from_str("{\"success\":true}"),
            };
            log_request(log, STATUS_OK, "/push");
            response
        },
        Err(_) => Response { status: STATUS_SERVER_ERROR, body: String::new() },
    }
}

/// Answers a request that matched no route: status 404 with an empty body,
/// and one new log entry with status 404 and the path that was asked for.
pub fn handle_not_found(log: &mut ActivityLog, path: &str) -> (response: Response)
    ensures
        response.status == STATUS_NOT_FOUND,
        response.body@ == Seq::<char>::empty(),
        logged(old(log)@, final(log)@, STATUS_NOT_FOUND, path@),
{
    let response = Response { status: STATUS_NOT_FOUND, body: String::new() };
    log_request(log, STATUS_NOT_FOUND, path);
    response
}

} // verus!
