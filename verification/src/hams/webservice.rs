//! The HTTP interface of the service: which endpoint a request reaches, the status
//! code of each reply, and the bodies that are plain text.

use vstd::prelude::*;
use vstd::string::*;
use crate::error::HamsError;
use crate::text::same_text;

verus! {

/// The endpoints served under `/hams/`.
#[derive(Debug, Clone, Copy, PartialEq, Eq, Structural)]
pub enum Endpoint {
    /// `GET /hams/version`: names and versions of the service and of the library
    Version,
    /// `/hams/shutdown`: asks for a shutdown
    Shutdown,
    /// `/hams/alive`: the liveness check
    Alive,
    /// `/hams/ready`: the readiness check
    Ready,
    /// `/hams/alive_verbose`: the liveness check with the result of each probe
    AliveVerbose,
    /// `/hams/ready_verbose`: the readiness check with the result of each probe
    ReadyVerbose,
    /// `GET /hams/metrics`: the text of the registered metrics callback
    Metrics,
}

/// The endpoint that the path segment after `/hams/` selects, for a GET request or
/// another method: `version` and `metrics` answer GET only, the others any method.
pub open spec fn spec_route(segment: Seq<char>, is_get: bool) -> Option<Endpoint> {
    if segment == "version"@ && is_get {
        Some(Endpoint::Version)
    } else if segment == "shutdown"@ {
        Some(Endpoint::Shutdown)
    } else if segment == "alive"@ {
        Some(Endpoint::Alive)
    } else if segment == "ready"@ {
        Some(Endpoint::Ready)
    } else if segment == "alive_verbose"@ {
        Some(Endpoint::AliveVerbose)
    } else if segment == "ready_verbose"@ {
        Some(Endpoint::ReadyVerbose)
    } else if segment == "metrics"@ && is_get {
        Some(Endpoint::Metrics)
    } else {
        None
    }
}

/// The path segment after `/hams/` at which an endpoint is served.
pub open spec fn endpoint_segment(e: Endpoint) -> Seq<char> {
    match e {
        Endpoint::Version => "version"@,
        Endpoint::Shutdown => "shutdown"@,
        Endpoint::Alive => "alive"@,
        Endpoint::Ready => "ready"@,
        Endpoint::AliveVerbose => "alive_verbose"@,
        Endpoint::ReadyVerbose => "ready_verbose"@,
        Endpoint::Metrics => "metrics"@,
    }
}

/// Every endpoint answers a GET at its own segment, and a segment reaches no endpoint
/// but its own: routing never confuses two endpoints.
pub proof fn law_every_endpoint_is_reached_at_its_segment(e: Endpoint, segment: Seq<char>, is_get: bool)
    ensures
        spec_route(endpoint_segment(e), true) == Some(e),
        spec_route(segment, is_get) == Some(e) ==> segment == endpoint_segment(e),
{
    reveal_strlit("version");
    reveal_strlit("shutdown");
    reveal_strlit("alive");
    reveal_strlit("ready");
    reveal_strlit("alive_verbose");
    reveal_strlit("ready_verbose");
    reveal_strlit("metrics");
    let segments = seq![
        "version"@, "shutdown"@, "alive"@, "ready"@, "alive_verbose"@, "ready_verbose"@, "metrics"@,
    ];
    assert forall|i: int, j: int| 0 <= i < j < 7 implies segments[i] != segments[j] by {
        if segments[i].len() == segments[j].len() {
            assert(segments[i][0] != segments[j][0]);
        }
    }
    assert(segments[0] == "version"@ && segments[1] == "shutdown"@ && segments[2] == "alive"@);
    assert(segments[3] == "ready"@ && segments[4] == "alive_verbose"@ && segments[5] == "ready_verbose"@);
    assert(segments[6] == "metrics"@);
}

/// The endpoint that the path segment after `/hams/` selects, if any.
pub fn route(segment: &str, is_get: bool) -> (r: Option<Endpoint>)
    ensures
        r == spec_route(segment@, is_get),
{
    if is_get && same_text(segment, "version") {
        Some(Endpoint::Version)
    } else if same_text(segment, "shutdown") {
        Some(Endpoint::Shutdown)
    } else if same_text(segment, "alive") {
        Some(Endpoint::Alive)
    } else if same_text(segment, "ready") {
        Some(Endpoint::Ready)
    } else if same_text(segment, "alive_verbose") {
        Some(Endpoint::AliveVerbose)
    } else if same_text(segment, "ready_verbose") {
        Some(Endpoint::ReadyVerbose)
    } else if is_get && same_text(segment, "metrics") {
        Some(Endpoint::Metrics)
    } else {
        None
    }
}

/// Whether a request reaches a known endpoint with a method it does not answer:
/// `version` and `metrics` answer GET only. Such a request is rejected as a method not
/// allowed, which is no unknown path.
pub open spec fn spec_method_not_allowed(segment: Seq<char>, is_get: bool) -> bool {
    !is_get && (segment == "version"@ || segment == "metrics"@)
}

/// Whether a request reaches a known endpoint with a method it does not answer.
pub fn method_not_allowed(segment: &str, is_get: bool) -> (r: bool)
    ensures
        r == spec_method_not_allowed(segment@, is_get),
{
    !is_get && (same_text(segment, "version") || same_text(segment, "metrics"))
}

/// The status code of a check reply: 200 when valid, 503 (service unavailable) when not.
pub fn check_status(valid: bool) -> (r: u16)
    ensures
        r == (if valid { 200u16 } else { 503u16 }),
{
    if valid { 200 } else { 503 }
}

/// The body of the metrics endpoint: the text of the registered callback, or a notice
/// that none is registered.
pub fn metrics_body(callback_output: Option<String>) -> (r: String)
    ensures
        callback_output matches Some(s) ==> r@ == s@,
        callback_output is None ==> r@ == "No metrics registered"@,
{
    match callback_output {
        Some(s) => s,
        None => String::from_str("No metrics registered"),
    }
}

/// The content type of the metrics endpoint.
pub fn metrics_content_type() -> (r: &'static str)
    ensures
        r@ == "text/plain; version=0.0.4"@,
{
    "text/plain; version=0.0.4"
}

/// Whether an error has a reply of its own when a request is rejected with it; the
/// errors for which none was written are left out.
pub open spec fn has_rejection_reply(err: HamsError) -> bool {
    !(err is AlreadyRunning || err is Cancelled || err is CallbackError || err is JoinError2
        || err is JoinError || err is NoThread || err is NulError || err is PreflightCheck
        || err is ShutdownCheck)
}

/// Whether an error has a reply of its own when a request is rejected with it.
pub fn rejection_defined(err: &HamsError) -> (r: bool)
    ensures
        r == has_rejection_reply(*err),
{
    match err {
        HamsError::AlreadyRunning | HamsError::Cancelled | HamsError::CallbackError
        | HamsError::JoinError2 | HamsError::JoinError | HamsError::NoThread
        | HamsError::NulError | HamsError::PreflightCheck | HamsError::ShutdownCheck => false,
        _ => true,
    }
}

/// The status code and message for a rejected request: 404 for an unknown path; for an
/// error, 400 with its message for `Message`, 406 with the probe's name for
/// `ProbeNotGood`, 500 with a short description for the others written down; 500
/// `Internal Server Error` for anything else.
pub open spec fn spec_rejection_reply(not_found: bool, err: Option<HamsError>) -> (u16, Seq<char>) {
    if not_found {
        (404, "Not Found"@)
    } else {
        match err {
            Some(HamsError::Message(msg)) => (400, msg@),
            Some(HamsError::PoisonError) => (500, "Poison Error"@),
            Some(HamsError::Unknown) => (500, "Unknown Error"@),
            Some(HamsError::NotRunning) => (500, "Not Running"@),
            Some(HamsError::SendError) => (500, "Send Error"@),
            Some(HamsError::IoError(_)) => (500, "IO Error"@),
            Some(HamsError::ProbeNotGood(name)) => (406, name@),
            _ => (500, "Internal Server Error"@),
        }
    }
}

/// The status code and message for a rejected request.
pub fn rejection_reply(not_found: bool, err: Option<&HamsError>) -> (r: (u16, String))
    requires
        !not_found ==> (err matches Some(e) ==> has_rejection_reply(*e)),
    ensures
        (r.0, r.1@) == spec_rejection_reply(not_found, match err { Some(e) => Some(*e), None => None }),
{
    if not_found {
        (404, String::from_str("Not Found"))
    } else {
        match err {
            Some(HamsError::Message(msg)) => (400, msg.clone()),
            Some(HamsError::PoisonError) => (500, String::from_str("Poison Error")),
            Some(HamsError::Unknown) => (500, String::from_str("Unknown Error")),
            Some(HamsError::NotRunning) => (500, String::from_str("Not Running")),
            Some(HamsError::SendError) => (500, String::from_str("Send Error")),
            Some(HamsError::IoError(_)) => (500, String::from_str("IO Error")),
            Some(HamsError::ProbeNotGood(name)) => (406, name.clone()),
            _ => (500, String::from_str("Internal Server Error")),
        }
    }
}

} // verus!
