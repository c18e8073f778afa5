//! Response classifier: interprets a decoded server response, together with
//! an optional pinned server version, into one of four outcomes.
//!
//! Classification is a pure function of the application-level status code,
//! message and server version; it never inspects transport-level details.
use vstd::prelude::*;

use crate::VERSION_MISMATCH_CODE;

verus! {

/// A decoded server response body.
#[derive(Debug)]
pub struct JsonResponse {
    /// Server build version.
    pub version: String,
    /// Application-level status code; 200 means success.
    pub status: i64,
    /// Optional human-readable description.
    pub message: Option<String>,
}

/// A retryable server error: a non-200 status outside the terminal set.
#[derive(Debug)]
pub struct Error {
    pub code: i64,
    pub message: Option<String>,
}

/// What a decoded response means to the session engine.
#[derive(Debug)]
pub enum ResponseOutcome {
    /// Status 200 with no version-pin mismatch.
    Success { server_version: String },
    /// Any other non-terminal status: retry, subject to escalation.
    RetryableError { code: i64, message: Option<String> },
    /// The server instructs the client to stop; never retried.
    TerminalDirective { code: i64, message: Option<String> },
    /// The response body could not be decoded.
    ProtocolError,
}

/// The closed set of status codes by which the server permanently ends the
/// session (deregistered, bad token, banned).
pub open spec fn is_terminal_code(code: i64) -> bool {
    code == 4000 || code == 4002 || code == 4031
}

/// An active version pin that differs from the newly observed server version.
pub open spec fn version_mismatch(resp: JsonResponse, pin: Option<String>) -> bool {
    pin matches Some(p) && p@ != resp.version@
}

/// The response classifies as a success.
pub open spec fn classifies_success(resp: JsonResponse, pin: Option<String>) -> bool {
    !version_mismatch(resp, pin) && resp.status == 200
}

/// The response classifies as a terminal directive, by status code or by
/// version mismatch.
pub open spec fn classifies_terminal(resp: JsonResponse, pin: Option<String>) -> bool {
    version_mismatch(resp, pin) || is_terminal_code(resp.status)
}

/// The response classifies as a retryable error.
pub open spec fn classifies_retryable(resp: JsonResponse, pin: Option<String>) -> bool {
    !version_mismatch(resp, pin) && resp.status != 200 && !is_terminal_code(resp.status)
}

/// Status code surfaced with a terminal directive: the mismatch code when a
/// version mismatch forced the directive, the server's own code otherwise.
pub open spec fn terminal_code(resp: JsonResponse, pin: Option<String>) -> i64 {
    if version_mismatch(resp, pin) {
        VERSION_MISMATCH_CODE
    } else {
        resp.status
    }
}

impl JsonResponse {
    pub fn new(version: String, status: i64, message: Option<String>) -> (r: JsonResponse)
        ensures
            r == (JsonResponse { version, status, message }),
    {
        JsonResponse { version, status, message }
    }

    pub fn get_status_code(&self) -> (r: i64)
        ensures
            r == self.status,
    {
        self.status
    }

    pub fn get_additional_message(&self) -> (r: Option<String>)
        ensures
            r == self.message,
    {
        self.message.clone()
    }

    pub fn get_server_version(&self) -> (r: &String)
        ensures
            r == self.version,
    {
        &self.version
    }

    /// The retryable-error view of this response.
    pub fn to_error(&self) -> (e: Error)
        ensures
            e.code == self.status,
            e.message == self.message,
    {
        Error { code: self.status, message: self.message.clone() }
    }
}

/// Classifies a decoded response against an optional version pin.
///
/// A mismatch between an active pin and the observed server version is a
/// terminal directive whatever the status code; otherwise status 200 is a
/// success, a code in the terminal set is a terminal directive, and any
/// other code is a retryable error.
pub fn classify(resp: &JsonResponse, pin: &Option<String>) -> (r: ResponseOutcome)
    ensures
        classifies_success(*resp, *pin) ==> (r matches ResponseOutcome::Success { server_version }
            && server_version == resp.version),
        classifies_terminal(*resp, *pin) ==> (r matches ResponseOutcome::TerminalDirective {
            code,
            message,
        } && code == terminal_code(*resp, *pin) && (if version_mismatch(*resp, *pin) {
            message matches Some(m) && m@ == "server version mismatch"@
        } else {
            message == resp.message
        })),
        classifies_retryable(*resp, *pin) ==> (r matches ResponseOutcome::RetryableError {
            code,
            message,
        } && code == resp.status && message == resp.message),
        !(r is ProtocolError),
{
    if let Some(p) = pin {
        if !(*p == resp.version) {
            return ResponseOutcome::TerminalDirective {
                code: VERSION_MISMATCH_CODE,
                message: Some(String::from_str("server version mismatch")),
            };
        }
    }
    let code = resp.status;
    if code == 200 {
        ResponseOutcome::Success { server_version: resp.version.clone() }
    } else if code == 4000 || code == 4002 || code == 4031 {
        ResponseOutcome::TerminalDirective { code, message: resp.message.clone() }
    } else {
        ResponseOutcome::RetryableError { code, message: resp.message.clone() }
    }
}

/// Classifies the result of decoding a response body: an undecodable body is
/// a protocol error, a decoded one classifies as [`classify`] does.
pub fn classify_decoded(decoded: &Option<JsonResponse>, pin: &Option<String>) -> (r:
    ResponseOutcome)
    ensures
        decoded is None ==> r is ProtocolError,
        decoded matches Some(resp) ==> {
            &&& classifies_success(*resp, *pin) ==> (r matches ResponseOutcome::Success {
                server_version,
            } && server_version == resp.version)
            &&& classifies_terminal(*resp, *pin) ==> (r matches ResponseOutcome::TerminalDirective {
                code,
                message,
            } && code == terminal_code(*resp, *pin) && (if version_mismatch(*resp, *pin) {
                message matches Some(m) && m@ == "server version mismatch"@
            } else {
                message == resp.message
            }))
            &&& classifies_retryable(*resp, *pin) ==> (r matches ResponseOutcome::RetryableError {
                code,
                message,
            } && code == resp.status && message == resp.message)
            &&& !(r is ProtocolError)
        },
{
    match decoded {
        None => ResponseOutcome::ProtocolError,
        Some(resp) => classify(resp, pin),
    }
}

} // verus!
