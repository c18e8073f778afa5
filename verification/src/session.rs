//! Session engine: the state machine that owns registration, the heartbeat
//! loop, endpoint failover and cooperative shutdown.
//!
//! The engine only decides: each call to [`Session::step`] consumes one
//! observed event (a response, a transport failure, a timer, a cancellation)
//! and returns the single action the driving loop must perform next.  The
//! driving loop performs the network calls and waits, and reports back what
//! happened.
use vstd::prelude::*;

use crate::config::interval_spec;
use crate::config::version_checking;
use crate::config::Configure;
use crate::endpoint::ServerAddress;
use crate::response::classifies_success;
use crate::response::classifies_terminal;
use crate::response::classify_decoded;
use crate::response::terminal_code;
use crate::response::version_mismatch;
use crate::response::Error;
use crate::response::JsonResponse;
use crate::response::ResponseOutcome;
use crate::retry::bumped;
use crate::retry::escalates;
use crate::retry::RetryDecision;
use crate::retry::RetryPolicy;
use crate::client_version;
use crate::BACKOFF_SECONDS;
use crate::DEFAULT_INTERVAL;
use crate::MAX_RETRY_TIMES;

verus! {

/// Where the engine stands in its lifecycle.
#[derive(Debug)]
pub enum EngineState {
    /// Created, rotation not started.
    Unregistered,
    /// A registration request is owed or in flight at the selected endpoint.
    Registering,
    /// A heartbeat request is owed or in flight.
    Heartbeating,
    /// Waiting out the configured interval after a successful heartbeat.
    IntervalWait,
    /// Waiting out the short backoff after a retryable failure.
    BackoffWait,
    /// The loop has ended, cleanly or on a failure.
    Stopped,
}

/// One observed event, reported by the driving loop.
#[derive(Debug)]
pub enum Event {
    /// A response arrived; `None` means the body could not be decoded.
    Response { decoded: Option<JsonResponse> },
    /// The request failed at transport level (connection, timeout).
    Transport,
    /// The interval or backoff wait ran out.
    TimerElapsed,
    /// The cancellation signal won the race against the timer.
    Cancelled,
}

/// A single failed attempt, classified.
#[derive(Debug)]
pub enum Failure {
    /// Network-level failure.
    Transport,
    /// Undecodable response body.
    Protocol,
    /// A retryable server error.
    Server(Error),
}

/// Too many consecutive retryable failures with no endpoint left to rotate
/// to; carries the failure that tipped the threshold.
#[derive(Debug)]
pub struct TooManyRetriesError {
    pub last: Failure,
}

impl TooManyRetriesError {
    pub fn new(last: Failure) -> (r: TooManyRetriesError)
        ensures
            r.last == last,
    {
        TooManyRetriesError { last }
    }
}

/// A server-directed or locally forced request to end the process.
#[derive(Debug)]
pub struct ExitProcessRequest {
    pub status_code: i64,
    pub message: String,
}

impl ExitProcessRequest {
    pub fn new(status_code: i64, message: String) -> (r: ExitProcessRequest)
        ensures
            r.status_code == status_code,
            r.message == message,
    {
        ExitProcessRequest { status_code, message }
    }

    /// The terminal view of a decoded response.
    pub fn from_response(j: &JsonResponse) -> (r: ExitProcessRequest)
        ensures
            r.status_code == j.status,
            j.message matches Some(m) ==> r.message == m,
            j.message is None ==> r.message@ == "No additional message"@,
    {
        ExitProcessRequest {
            status_code: j.status,
            message: message_or_default(j.message.clone()),
        }
    }
}

/// Why the loop ended.
#[derive(Debug)]
pub enum StopReason {
    /// The cancellation signal was received: a clean, cooperative stop.
    Cancelled,
    /// A terminal directive (or version mismatch): never retried.
    Terminal(ExitProcessRequest),
    /// The escalation threshold was passed and the endpoint list is
    /// exhausted.
    TooManyRetries(TooManyRetriesError),
    /// A registration attempt failed; registration is not retried
    /// internally.
    RegisterFailed(Failure),
}

/// What the driving loop must do next.
#[derive(Debug)]
pub enum Action {
    /// Send a registration request to the selected endpoint.
    SendRegister,
    /// Send a heartbeat, with a telemetry payload when enabled.
    SendHeartbeat { with_statistics: bool },
    /// Wait the given seconds, racing the cancellation signal.
    Wait { seconds: u64 },
    /// End the loop for the given reason.
    Stop { reason: StopReason },
}

/// One reporting session: configuration, version pin, endpoint rotation,
/// retry accounting and lifecycle state.  Owned exclusively by one driving
/// loop; never shared.
#[derive(Debug)]
pub struct Session {
    pub config: Configure,
    /// Server version observed at registration, when version checking is
    /// enabled; `None` while no pin is active.
    pub server_version: Option<String>,
    pub server_address: ServerAddress,
    pub retry: RetryPolicy,
    pub state: EngineState,
}

/// The given message, or the fixed placeholder when there is none.
pub fn message_or_default(m: Option<String>) -> (r: String)
    ensures
        m matches Some(s) ==> r == s,
        m is None ==> r@ == "No additional message"@,
{
    match m {
        Some(s) => s,
        None => String::from_str("No additional message"),
    }
}

/// What never changes across a step: the configuration and the address
/// list itself.
pub open spec fn frame_core(pre: Session, post: Session) -> bool {
    &&& post.config == pre.config
    &&& post.server_address.address == pre.server_address.address
}

/// On cancellation the loop stops cleanly, whatever else was pending.
pub open spec fn cancel_transition(pre: Session, post: Session, a: Action) -> bool {
    &&& post.state is Stopped
    &&& post.retry == pre.retry
    &&& post.server_version == pre.server_version
    &&& post.server_address == pre.server_address
    &&& a matches Action::Stop { reason: StopReason::Cancelled }
}

/// When the wait runs out, the next heartbeat attempt starts, carrying
/// telemetry exactly when the configuration enables it.
pub open spec fn timer_transition(pre: Session, post: Session, a: Action) -> bool {
    &&& post.state is Heartbeating
    &&& post.retry == pre.retry
    &&& post.server_version == pre.server_version
    &&& post.server_address == pre.server_address
    &&& (a matches Action::SendHeartbeat { with_statistics } && with_statistics
        == pre.config.statistics.enabled)
}

/// A successful registration: the failure run resets, the observed server
/// version is pinned exactly when version checking is enabled, and the
/// first heartbeat of the run is owed.
pub open spec fn register_success_transition(
    pre: Session,
    post: Session,
    observed: String,
    a: Action,
) -> bool {
    &&& post.state is Heartbeating
    &&& post.retry.consecutive_failures == 0
    &&& post.server_version == (if version_checking(pre.config) {
        Some(observed)
    } else {
        pre.server_version
    })
    &&& post.server_address == pre.server_address
    &&& (a matches Action::SendHeartbeat { with_statistics } && with_statistics
        == pre.config.statistics.enabled)
}

/// A successful heartbeat: the failure run resets and the loop waits out
/// the configured interval.
pub open spec fn heartbeat_success_transition(pre: Session, post: Session, a: Action) -> bool {
    &&& post.state is IntervalWait
    &&& post.retry.consecutive_failures == 0
    &&& post.server_version == pre.server_version
    &&& post.server_address == pre.server_address
    &&& (a matches Action::Wait { seconds } && seconds == interval_spec(pre.config))
}

/// A terminal directive ends the loop at once, surfacing the directive's
/// code and message; never retried.
pub open spec fn terminal_transition(
    pre: Session,
    post: Session,
    code: i64,
    msg: Seq<char>,
    a: Action,
) -> bool {
    &&& post.state is Stopped
    &&& post.retry == pre.retry
    &&& post.server_version == pre.server_version
    &&& post.server_address == pre.server_address
    &&& (a matches Action::Stop { reason: StopReason::Terminal(epr) } && epr.status_code == code
        && epr.message@ == msg)
}

/// A failed registration attempt is surfaced at once; registration is not
/// retried internally.
pub open spec fn register_failure_transition(
    pre: Session,
    post: Session,
    f: Failure,
    a: Action,
) -> bool {
    &&& post.state is Stopped
    &&& post.retry == pre.retry
    &&& post.server_version == pre.server_version
    &&& post.server_address == pre.server_address
    &&& (a matches Action::Stop { reason: StopReason::RegisterFailed(g) } && g == f)
}

/// A retryable heartbeat failure: below the threshold the loop backs off
/// briefly and stays in the heartbeat cycle; past the threshold the engine
/// rotates to the next endpoint and re-registers, or — with the list
/// exhausted — stops with a too-many-retries failure carrying the last
/// failure seen.
pub open spec fn heartbeat_failure_transition(
    pre: Session,
    post: Session,
    f: Failure,
    a: Action,
) -> bool {
    let c = bumped(pre.retry.consecutive_failures as nat);
    if !escalates(c) {
        &&& post.state is BackoffWait
        &&& post.retry.consecutive_failures == c
        &&& post.server_version == pre.server_version
        &&& post.server_address == pre.server_address
        &&& (a matches Action::Wait { seconds } && seconds == BACKOFF_SECONDS)
    } else if pre.server_address.rotation_available() {
        &&& post.state is Registering
        &&& post.retry.consecutive_failures == c
        &&& post.server_version == pre.server_version
        &&& post.server_address.current_loc == pre.server_address.advanced_cursor()
        &&& a is SendRegister
    } else {
        &&& post.state is Stopped
        &&& post.server_version == pre.server_version
        &&& post.server_address.current_loc == pre.server_address.advanced_cursor()
        &&& (a matches Action::Stop { reason: StopReason::TooManyRetries(t) } && t.last == f)
    }
}

/// A failed attempt, dispatched on whether it failed registration or a
/// heartbeat.
pub open spec fn failure_transition(pre: Session, post: Session, f: Failure, a: Action) -> bool {
    if pre.state is Registering {
        register_failure_transition(pre, post, f, a)
    } else {
        heartbeat_failure_transition(pre, post, f, a)
    }
}

/// The message surfaced with a terminal directive: the fixed mismatch text
/// when a version mismatch forced it, else the server's message or the
/// fixed placeholder.
pub open spec fn terminal_message_view(resp: JsonResponse, pin: Option<String>) -> Seq<char> {
    if version_mismatch(resp, pin) {
        "server version mismatch"@
    } else {
        match resp.message {
            Some(m) => m@,
            None => "No additional message"@,
        }
    }
}

/// The whole transition relation of the session engine: given the state
/// before the step and the observed event, what the state after the step
/// and the returned action are.
pub open spec fn step_transition(pre: Session, ev: Event, post: Session, a: Action) -> bool {
    &&& frame_core(pre, post)
    &&& match ev {
        Event::Cancelled => cancel_transition(pre, post, a),
        Event::TimerElapsed => timer_transition(pre, post, a),
        Event::Transport => failure_transition(pre, post, Failure::Transport, a),
        Event::Response { decoded } => match decoded {
            None => failure_transition(pre, post, Failure::Protocol, a),
            Some(resp) => if classifies_success(resp, pre.server_version) {
                if pre.state is Registering {
                    register_success_transition(pre, post, resp.version, a)
                } else {
                    heartbeat_success_transition(pre, post, a)
                }
            } else if classifies_terminal(resp, pre.server_version) {
                terminal_transition(
                    pre,
                    post,
                    terminal_code(resp, pre.server_version),
                    terminal_message_view(resp, pre.server_version),
                    a,
                )
            } else {
                failure_transition(
                    pre,
                    post,
                    Failure::Server(Error { code: resp.status, message: resp.message }),
                    a,
                )
            },
        },
    }
}

impl Session {
    /// Structural invariant: the rotation list is well formed and nonempty,
    /// the failure counter is bounded, and every state that owes or awaits a
    /// request has an endpoint selected.
    pub open spec fn wf(&self) -> bool {
        &&& self.server_address.well_formed()
        &&& self.server_address.address@.len() >= 1
        &&& self.retry.consecutive_failures <= MAX_RETRY_TIMES + 1
        &&& (self.state is Unregistered ==> self.server_address.current_loc is None)
        &&& ((self.state is Registering || self.state is Heartbeating || self.state
            is IntervalWait || self.state is BackoffWait)
            ==> self.server_address.has_selection())
        &&& ((self.state is Heartbeating || self.state is IntervalWait || self.state
            is BackoffWait) ==> self.retry.consecutive_failures <= MAX_RETRY_TIMES)
    }

    /// A fresh session over the given configuration: rotation not started,
    /// no version pin, no failures recorded.
    pub fn new(config: Configure) -> (s: Session)
        ensures
            s.wf(),
            s.state is Unregistered,
            s.config == config,
            s.server_version is None,
            s.retry.consecutive_failures == 0,
            s.server_address.current_loc is None,
            s.server_address.address@.len() == 1 + (match config.server.backup_servers {
                Some(bs) => bs@.len(),
                None => 0,
            }),
            s.server_address.address@[0] == config.server.server_address,
            config.server.backup_servers matches Some(bs) ==> forall|j: int|
                0 <= j < bs@.len() ==> s.server_address.address@[j + 1] == bs@[j],
    {
        let server_address = ServerAddress::new(&config);
        Session {
            config,
            server_version: None,
            server_address,
            retry: RetryPolicy::new(),
            state: EngineState::Unregistered,
        }
    }

    /// Starts the session: selects the primary endpoint and owes the first
    /// registration request.
    pub fn start(&mut self) -> (a: Action)
        requires
            old(self).wf(),
            old(self).state is Unregistered,
        ensures
            final(self).wf(),
            final(self).state is Registering,
            final(self).config == old(self).config,
            final(self).server_version == old(self).server_version,
            final(self).retry == old(self).retry,
            final(self).server_address.address == old(self).server_address.address,
            final(self).server_address.current_loc == Some(0usize),
            a is SendRegister,
    {
        self.server_address.next();
        self.state = EngineState::Registering;
        Action::SendRegister
    }

    /// The effective heartbeat interval in seconds.
    pub fn get_interval(&self) -> (r: u64)
        ensures
            r == interval_spec(self.config),
    {
        match self.config.server.interval {
            Some(i) => i as u64,
            None => DEFAULT_INTERVAL as u64,
        }
    }

    /// The fixed request fields sent with every request: the client
    /// version, the action name, the identity token, and the optional
    /// serialized body.
    pub fn build_request_data(&self, action: &str, body: Option<String>) -> (r: Vec<
        (String, String),
    >)
        requires
            self.config.identification is Some,
        ensures
            r@.len() == (match body {
                Some(_) => 4int,
                None => 3int,
            }),
            r@[0].0@ == "version"@ && r@[0].1@ == "0.1.0"@,
            r@[1].0@ == "action"@ && r@[1].1@ == action@,
            r@[2].0@ == "uuid"@ && (self.config.identification matches Some(id) && r@[2].1
                == id.token),
            body matches Some(b) ==> r@[3].0@ == "body"@ && r@[3].1 == b,
    {
        let mut data: Vec<(String, String)> = Vec::new();
        data.push((String::from_str("version"), String::from_str(client_version())));
        data.push((String::from_str("action"), String::from_str(action)));
        let token = match &self.config.identification {
            Some(id) => id.token.clone(),
            None => unreached(),
        };
        data.push((String::from_str("uuid"), token));
        if let Some(b) = body {
            data.push((String::from_str("body"), b));
        }
        data
    }

    /// Drives the state machine one step: consumes the observed event and
    /// returns the action the loop must perform next.
    pub fn step(&mut self, event: Event) -> (a: Action)
        requires
            old(self).wf(),
            (event is Response || event is Transport) ==> (old(self).state is Registering || old(
                self,
            ).state is Heartbeating),
            (event is TimerElapsed || event is Cancelled) ==> (old(self).state is IntervalWait
                || old(self).state is BackoffWait),
        ensures
            final(self).wf(),
            step_transition(*old(self), event, *final(self), a),
    {
        match event {
            Event::Cancelled => {
                self.state = EngineState::Stopped;
                Action::Stop { reason: StopReason::Cancelled }
            },
            Event::TimerElapsed => {
                self.state = EngineState::Heartbeating;
                Action::SendHeartbeat { with_statistics: self.config.statistics.enabled }
            },
            Event::Transport => self.on_failure(Failure::Transport),
            Event::Response { decoded } => {
                let outcome = classify_decoded(&decoded, &self.server_version);
                self.on_outcome(outcome)
            },
        }
    }

    /// Applies a classified response outcome in a request-owing state.
    fn on_outcome(&mut self, outcome: ResponseOutcome) -> (a: Action)
        requires
            old(self).wf(),
            old(self).state is Registering || old(self).state is Heartbeating,
        ensures
            final(self).wf(),
            frame_core(*old(self), *final(self)),
            outcome matches ResponseOutcome::Success { server_version } ==> (if old(
                self,
            ).state is Registering {
                register_success_transition(*old(self), *final(self), server_version, a)
            } else {
                heartbeat_success_transition(*old(self), *final(self), a)
            }),
            outcome matches ResponseOutcome::TerminalDirective { code, message }
                ==> terminal_transition(
                *old(self),
                *final(self),
                code,
                match message {
                    Some(m) => m@,
                    None => "No additional message"@,
                },
                a,
            ),
            outcome matches ResponseOutcome::RetryableError { code, message } ==> failure_transition(
                *old(self),
                *final(self),
                Failure::Server(Error { code, message }),
                a,
            ),
            outcome is ProtocolError ==> failure_transition(
                *old(self),
                *final(self),
                Failure::Protocol,
                a,
            ),
    {
        match outcome {
            ResponseOutcome::Success { server_version } => {
                self.retry.on_success();
                if self.state_is_registering() {
                    let enabled = match self.config.server.check_server_version {
                        Some(b) => b,
                        None => false,
                    };
                    if enabled {
                        self.server_version = Some(server_version);
                    }
                    self.state = EngineState::Heartbeating;
                    Action::SendHeartbeat { with_statistics: self.config.statistics.enabled }
                } else {
                    self.state = EngineState::IntervalWait;
                    let seconds = self.get_interval();
                    Action::Wait { seconds }
                }
            },
            ResponseOutcome::TerminalDirective { code, message } => {
                self.state = EngineState::Stopped;
                Action::Stop {
                    reason: StopReason::Terminal(
                        ExitProcessRequest { status_code: code, message: message_or_default(message) },
                    ),
                }
            },
            ResponseOutcome::RetryableError { code, message } => self.on_failure(
                Failure::Server(Error { code, message }),
            ),
            ResponseOutcome::ProtocolError => self.on_failure(Failure::Protocol),
        }
    }

    /// True exactly in the `Registering` state.
    fn state_is_registering(&self) -> (r: bool)
        ensures
            r <==> self.state is Registering,
    {
        match self.state {
            EngineState::Registering => true,
            _ => false,
        }
    }

    /// Applies one failed attempt: surfaces it at registration, counts it
    /// against the retry policy in the heartbeat cycle.
    fn on_failure(&mut self, f: Failure) -> (a: Action)
        requires
            old(self).wf(),
            old(self).state is Registering || old(self).state is Heartbeating,
        ensures
            final(self).wf(),
            frame_core(*old(self), *final(self)),
            failure_transition(*old(self), *final(self), f, a),
    {
        if self.state_is_registering() {
            self.state = EngineState::Stopped;
            return Action::Stop { reason: StopReason::RegisterFailed(f) };
        }
        match self.retry.on_retryable_failure() {
            RetryDecision::Continue => {
                self.state = EngineState::BackoffWait;
                Action::Wait { seconds: BACKOFF_SECONDS }
            },
            RetryDecision::Escalate => {
                let rotated = self.server_address.next().is_some();
                if rotated {
                    self.state = EngineState::Registering;
                    Action::SendRegister
                } else {
                    self.state = EngineState::Stopped;
                    Action::Stop {
                        reason: StopReason::TooManyRetries(TooManyRetriesError { last: f }),
                    }
                }
            },
        }
    }
}

} // verus!

