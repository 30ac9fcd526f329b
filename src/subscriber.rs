//! The remote-trigger subscriber loop as an explicit state machine.
//!
//! The driver performs the action that `next_action` names for the current state (open a
//! broker session, subscribe, receive, switch, publish, sleep), hands the outcome back as a
//! `LoopEvent`, and `step` decides the next state and what to report.
use vstd::prelude::*;
use crate::topology::{
    decode_encode_round_trip,
    decode_spec,
    name_of,
    names,
    switch_flags_spec,
    switch_outcome,
    switch_outcome_spec,
    SwitchError,
    Topology,
    UnrecognizedTopology,
};

verus! {

/// Seconds to wait before a fresh session is opened after a session-level failure.
pub const BACKOFF_SECS: u64 = 10;

/// Delivery guarantee of a subscription or a publication.
#[derive(Debug, Clone, Copy, PartialEq, Eq, Structural)]
pub enum Qos {
    AtMostOnce,
    AtLeastOnce,
    ExactlyOnce,
}

/// What the loop does when a display switch, or the status report after it, fails.
#[derive(Debug, Clone, Copy, PartialEq, Eq, Structural)]
pub enum PostSwitchFailure {
    /// The failure ends the loop and is handed to its caller.
    Terminate,
    /// The failure is reported and the loop goes on listening.
    LogAndContinue,
}

/// The fixed configuration that the loop's decisions depend on.
pub struct LoopConfig {
    pub trigger_topic: String,
    pub status_topic: Option<String>,
    pub on_post_switch_failure: PostSwitchFailure,
}

/// A failure that ended the loop.
#[derive(Debug, PartialEq, Eq)]
pub enum LoopFailure {
    Switch(SwitchError),
    Publish(String),
}

/// Where the loop stands.
#[derive(Debug, PartialEq, Eq)]
pub enum LoopState {
    /// A fresh broker session is to be opened.
    Connecting,
    /// The session is open; the trigger topic is to be subscribed.
    Subscribing,
    /// Waiting for the next item of the session's event stream.
    Listening,
    /// A switch to the topology is in flight.
    Switching(Topology),
    /// The switch succeeded; its topology is to be reported on the status topic.
    Reporting(Topology),
    /// Waiting out the backoff before a fresh session.
    BackingOff,
    /// The loop has ended with a failure.
    Stopped(LoopFailure),
}

/// The outcome of the last action, handed back by the driver.
#[derive(Debug, PartialEq, Eq)]
pub enum LoopEvent {
    SessionOpened,
    Subscribed,
    SubscribeFailed(String),
    /// A message published on the subscribed topic, with its payload.
    Message(Vec<u8>),
    /// Any other protocol event of the stream (acknowledgements, pings).
    OtherEvent,
    /// The stream failed; the session is dead.
    TransportFailed(String),
    /// The stream ended without an error.
    StreamEnded,
    /// The status that the platform's display-configuration call returned.
    SwitchReturned(i32),
    Published,
    PublishFailed(String),
    BackoffElapsed,
}

/// What the driver is to do next.
#[derive(Debug, PartialEq, Eq)]
pub enum Action {
    OpenSession,
    Subscribe { topic: String, qos: Qos },
    ReceiveNext,
    Switch { topology: Topology, flags: u32 },
    Publish { topic: String, payload: String, retain: bool, qos: Qos },
    Sleep { secs: u64 },
    Halt,
}

/// A line worth reporting to the operator.
#[derive(Debug, PartialEq, Eq)]
pub enum Diagnostic {
    SubscribeFailed(String),
    ReceiveFailed(String),
    Disconnected,
    PayloadNotText { valid_up_to: usize },
    UnrecognizedTopology(UnrecognizedTopology),
    Switching(Topology),
    SwitchFailed(SwitchError),
    PublishFailed(String),
}

/// The result of one transition.
#[derive(Debug, PartialEq, Eq)]
pub struct Step {
    pub state: LoopState,
    pub diagnostic: Option<Diagnostic>,
}

/// What `String::from_utf8` gives for these bytes: the text, or the length of the longest
/// valid prefix.
pub uninterp spec fn utf8_decoding(b: Seq<u8>) -> Result<Seq<char>, usize>;

/// Relies on `String::from_utf8` (and `Utf8Error::valid_up_to` for the error): the result
/// depends on the bytes alone.
#[verifier::external_body]
fn text_of_payload(b: Vec<u8>) -> (r: Result<String, usize>)
    ensures
        match utf8_decoding(b@) {
            Ok(text) => r is Ok && r->Ok_0@ == text,
            Err(n) => r == Err::<String, usize>(n),
        },
{
    String::from_utf8(b).map_err(|e| e.utf8_error().valid_up_to())
}

/// The state after a post-switch failure, by the configured policy.
pub open spec fn after_failure(cfg: LoopConfig, f: LoopFailure) -> LoopState {
    match cfg.on_post_switch_failure {
        PostSwitchFailure::Terminate => LoopState::Stopped(f),
        PostSwitchFailure::LogAndContinue => LoopState::Listening,
    }
}

/// The state that a payload received while listening leads to.
pub open spec fn on_payload(b: Seq<u8>) -> LoopState {
    match utf8_decoding(b) {
        Ok(text) => match decode_spec(text) {
            Some(t) => LoopState::Switching(t),
            None => LoopState::Listening,
        },
        Err(_) => LoopState::Listening,
    }
}

/// The loop's transition function. An event that does not answer the state's action leaves
/// the state as it is.
pub open spec fn next_state(cfg: LoopConfig, s: LoopState, e: LoopEvent) -> LoopState {
    match s {
        LoopState::Connecting => match e {
            LoopEvent::SessionOpened => LoopState::Subscribing,
            _ => s,
        },
        LoopState::Subscribing => match e {
            LoopEvent::Subscribed => LoopState::Listening,
            LoopEvent::SubscribeFailed(_) => LoopState::BackingOff,
            _ => s,
        },
        LoopState::Listening => match e {
            LoopEvent::Message(b) => on_payload(b@),
            LoopEvent::OtherEvent => LoopState::Listening,
            LoopEvent::TransportFailed(_) => LoopState::BackingOff,
            LoopEvent::StreamEnded => LoopState::BackingOff,
            _ => s,
        },
        LoopState::Switching(t) => match e {
            LoopEvent::SwitchReturned(code) => match switch_outcome_spec(code) {
                Ok(_) => if cfg.status_topic is Some {
                    LoopState::Reporting(t)
                } else {
                    LoopState::Listening
                },
                Err(err) => after_failure(cfg, LoopFailure::Switch(err)),
            },
            _ => s,
        },
        LoopState::Reporting(_) => match e {
            LoopEvent::Published => LoopState::Listening,
            LoopEvent::PublishFailed(m) => after_failure(cfg, LoopFailure::Publish(m)),
            _ => s,
        },
        LoopState::BackingOff => match e {
            LoopEvent::BackoffElapsed => LoopState::Connecting,
            _ => s,
        },
        LoopState::Stopped(_) => s,
    }
}

/// Whether `d` is what receiving payload `b` reports: the switch it starts, or why it was
/// skipped.
pub open spec fn reports_payload(b: Seq<u8>, d: Option<Diagnostic>) -> bool {
    match utf8_decoding(b) {
        Ok(text) => match decode_spec(text) {
            Some(t) => d == Some(Diagnostic::Switching(t)),
            None => match d {
                Some(Diagnostic::UnrecognizedTopology(u)) => u.text@ == text,
                _ => false,
            },
        },
        Err(n) => d == Some(Diagnostic::PayloadNotText { valid_up_to: n }),
    }
}

/// Whether `d` is what the transition from `s` on `e` reports.
pub open spec fn diagnoses(cfg: LoopConfig, s: LoopState, e: LoopEvent, d: Option<Diagnostic>) -> bool {
    let continues = cfg.on_post_switch_failure == PostSwitchFailure::LogAndContinue;
    match (s, e) {
        (LoopState::Subscribing, LoopEvent::SubscribeFailed(m)) => d == Some(
            Diagnostic::SubscribeFailed(m),
        ),
        (LoopState::Listening, LoopEvent::TransportFailed(m)) => d == Some(
            Diagnostic::ReceiveFailed(m),
        ),
        (LoopState::Listening, LoopEvent::StreamEnded) => d == Some(Diagnostic::Disconnected),
        (LoopState::Listening, LoopEvent::Message(b)) => reports_payload(b@, d),
        (LoopState::Switching(_), LoopEvent::SwitchReturned(code)) => match switch_outcome_spec(
            code,
        ) {
            Err(err) if continues => d == Some(Diagnostic::SwitchFailed(err)),
            _ => d is None,
        },
        (LoopState::Reporting(_), LoopEvent::PublishFailed(m)) => if continues {
            d == Some(Diagnostic::PublishFailed(m))
        } else {
            d is None
        },
        _ => d is None,
    }
}

/// Whether `a` is the action that the driver is to perform in state `s`.
pub open spec fn action_for(cfg: LoopConfig, s: LoopState, a: Action) -> bool {
    match s {
        LoopState::Connecting => a == Action::OpenSession,
        LoopState::Subscribing => match a {
            Action::Subscribe { topic, qos } => topic@ == cfg.trigger_topic@ && qos
                == Qos::AtMostOnce,
            _ => false,
        },
        LoopState::Listening => a == Action::ReceiveNext,
        LoopState::Switching(t) => a == (Action::Switch { topology: t, flags: switch_flags_spec(t) }),
        LoopState::Reporting(t) => match cfg.status_topic {
            Some(st) => match a {
                Action::Publish { topic, payload, retain, qos } => topic@ == st@ && payload@
                    == name_of(t) && retain && qos == Qos::AtMostOnce,
                _ => false,
            },
            None => a == Action::ReceiveNext,
        },
        LoopState::BackingOff => a == (Action::Sleep { secs: BACKOFF_SECS }),
        LoopState::Stopped(_) => a == Action::Halt,
    }
}

/// The state in which the loop starts: about to open its first session.
pub fn initial_state() -> (r: LoopState)
    ensures
        r == LoopState::Connecting,
{
    LoopState::Connecting
}

/// The action that the driver is to perform in `state`. The loop reaches `Reporting` only
/// where a status topic is configured; without one that state just listens on.
pub fn next_action(cfg: &LoopConfig, state: &LoopState) -> (r: Action)
    ensures
        action_for(*cfg, *state, r),
{
    match state {
        LoopState::Connecting => Action::OpenSession,
        LoopState::Subscribing => Action::Subscribe {
            topic: cfg.trigger_topic.clone(),
            qos: Qos::AtMostOnce,
        },
        LoopState::Listening => Action::ReceiveNext,
        LoopState::Switching(t) => Action::Switch { topology: *t, flags: t.switch_flags() },
        LoopState::Reporting(t) => match &cfg.status_topic {
            Some(st) => Action::Publish {
                topic: st.clone(),
                payload: t.encode(),
                retain: true,
                qos: Qos::AtMostOnce,
            },
            None => Action::ReceiveNext,
        },
        LoopState::BackingOff => Action::Sleep { secs: BACKOFF_SECS },
        LoopState::Stopped(_) => Action::Halt,
    }
}

fn failure_step(cfg: &LoopConfig, f: LoopFailure, d: Diagnostic) -> (r: Step)
    ensures
        r.state == after_failure(*cfg, f),
        r.diagnostic == (match cfg.on_post_switch_failure {
            PostSwitchFailure::Terminate => None,
            PostSwitchFailure::LogAndContinue => Some(d),
        }),
{
    match cfg.on_post_switch_failure {
        PostSwitchFailure::Terminate => Step { state: LoopState::Stopped(f), diagnostic: None },
        PostSwitchFailure::LogAndContinue => Step { state: LoopState::Listening, diagnostic: Some(d) },
    }
}

fn quiet(state: LoopState) -> (r: Step)
    ensures
        r.state == state,
        r.diagnostic is None,
{
    Step { state, diagnostic: None }
}

fn payload_step(b: Vec<u8>) -> (r: Step)
    ensures
        r.state == on_payload(b@),
        reports_payload(b@, r.diagnostic),
{
    match text_of_payload(b) {
        Err(n) => Step {
            state: LoopState::Listening,
            diagnostic: Some(Diagnostic::PayloadNotText { valid_up_to: n }),
        },
        Ok(text) => match Topology::decode(text.as_str()) {
            Ok(t) => Step {
                state: LoopState::Switching(t),
                diagnostic: Some(Diagnostic::Switching(t)),
            },
            Err(u) => Step {
                state: LoopState::Listening,
                diagnostic: Some(Diagnostic::UnrecognizedTopology(u)),
            },
        },
    }
}

/// One transition of the loop: the next state from `state` on `event`, and what to report.
pub fn step(cfg: &LoopConfig, state: LoopState, event: LoopEvent) -> (r: Step)
    ensures
        r.state == next_state(*cfg, state, event),
        diagnoses(*cfg, state, event, r.diagnostic),
{
    match state {
        LoopState::Connecting => match event {
            LoopEvent::SessionOpened => quiet(LoopState::Subscribing),
            _ => quiet(LoopState::Connecting),
        },
        LoopState::Subscribing => match event {
            LoopEvent::Subscribed => quiet(LoopState::Listening),
            LoopEvent::SubscribeFailed(m) => Step {
                state: LoopState::BackingOff,
                diagnostic: Some(Diagnostic::SubscribeFailed(m)),
            },
            _ => quiet(LoopState::Subscribing),
        },
        LoopState::Listening => match event {
            LoopEvent::Message(b) => payload_step(b),
            LoopEvent::OtherEvent => quiet(LoopState::Listening),
            LoopEvent::TransportFailed(m) => Step {
                state: LoopState::BackingOff,
                diagnostic: Some(Diagnostic::ReceiveFailed(m)),
            },
            LoopEvent::StreamEnded => Step {
                state: LoopState::BackingOff,
                diagnostic: Some(Diagnostic::Disconnected),
            },
            _ => quiet(LoopState::Listening),
        },
        LoopState::Switching(t) => match event {
            LoopEvent::SwitchReturned(code) => match switch_outcome(code) {
                Ok(()) => if cfg.status_topic.is_some() {
                    quiet(LoopState::Reporting(t))
                } else {
                    quiet(LoopState::Listening)
                },
                Err(err) => failure_step(cfg, LoopFailure::Switch(err), Diagnostic::SwitchFailed(err)),
            },
            _ => quiet(LoopState::Switching(t)),
        },
        LoopState::Reporting(t) => match event {
            LoopEvent::Published => quiet(LoopState::Listening),
            LoopEvent::PublishFailed(m) => {
                let d = Diagnostic::PublishFailed(m.clone());
                failure_step(cfg, LoopFailure::Publish(m), d)
            },
            _ => quiet(LoopState::Reporting(t)),
        },
        LoopState::BackingOff => match event {
            LoopEvent::BackoffElapsed => quiet(LoopState::Connecting),
            _ => quiet(LoopState::BackingOff),
        },
        LoopState::Stopped(f) => quiet(LoopState::Stopped(f)),
    }
}

/// A failed subscription leads to one backoff and then one fresh session; once that
/// session's subscription is accepted the loop listens, and listening never goes back to
/// subscribing or connecting unless the session fails.
pub proof fn failed_subscribe_restarts_once(cfg: LoopConfig, m: String)
    ensures
        next_state(cfg, LoopState::Subscribing, LoopEvent::SubscribeFailed(m))
            == LoopState::BackingOff,
        action_for(cfg, LoopState::BackingOff, Action::Sleep { secs: BACKOFF_SECS }),
        forall|e: LoopEvent|
            !(e is BackoffElapsed) ==> next_state(cfg, LoopState::BackingOff, e)
                == LoopState::BackingOff,
        next_state(cfg, LoopState::BackingOff, LoopEvent::BackoffElapsed) == LoopState::Connecting,
        action_for(cfg, LoopState::Connecting, Action::OpenSession),
        next_state(cfg, LoopState::Connecting, LoopEvent::SessionOpened) == LoopState::Subscribing,
        next_state(cfg, LoopState::Subscribing, LoopEvent::Subscribed) == LoopState::Listening,
        forall|e: LoopEvent|
            !(e is TransportFailed) && !(e is StreamEnded) ==> {
                let n = #[trigger] next_state(cfg, LoopState::Listening, e);
                n != LoopState::Subscribing && n != LoopState::Connecting && n
                    != LoopState::BackingOff
            },
{
}

/// A payload that is not UTF-8 text is reported and skipped: the loop keeps listening, and
/// whatever comes next is handled exactly as if the skipped payload had never arrived; in
/// particular a following payload that names a topology starts a switch to it.
pub proof fn undecodable_payload_is_skipped(
    cfg: LoopConfig,
    b: Vec<u8>,
    next: LoopEvent,
    b2: Vec<u8>,
    t: Topology,
)
    ensures
        utf8_decoding(b@) is Err ==> {
            &&& next_state(cfg, LoopState::Listening, LoopEvent::Message(b)) == LoopState::Listening
            &&& reports_payload(
                b@,
                Some(Diagnostic::PayloadNotText { valid_up_to: utf8_decoding(b@)->Err_0 }),
            )
            &&& next_state(
                cfg,
                next_state(cfg, LoopState::Listening, LoopEvent::Message(b)),
                next,
            ) == next_state(cfg, LoopState::Listening, next)
        },
        (utf8_decoding(b2@) is Ok && names(utf8_decoding(b2@)->Ok_0, t)) ==> next_state(
            cfg,
            LoopState::Listening,
            LoopEvent::Message(b2),
        ) == LoopState::Switching(t),
        next_state(cfg, LoopState::Listening, LoopEvent::Message(b)) == LoopState::Listening
            || next_state(cfg, LoopState::Listening, LoopEvent::Message(b)) is Switching,
{
    if utf8_decoding(b2@) is Ok && names(utf8_decoding(b2@)->Ok_0, t) {
        decode_encode_round_trip(utf8_decoding(b2@)->Ok_0, t);
    }
}

/// With a status topic configured, a payload that names a topology starts one switch to it;
/// once the switch succeeds the loop publishes the topology's canonical name on the status
/// topic, retained and at most once, and after that publication it listens again.
pub proof fn successful_switch_is_reported_once(cfg: LoopConfig, b: Vec<u8>, t: Topology)
    requires
        cfg.status_topic is Some,
    ensures
        (utf8_decoding(b@) is Ok && names(utf8_decoding(b@)->Ok_0, t)) ==> next_state(
            cfg,
            LoopState::Listening,
            LoopEvent::Message(b),
        ) == LoopState::Switching(t),
        action_for(
            cfg,
            LoopState::Switching(t),
            Action::Switch { topology: t, flags: switch_flags_spec(t) },
        ),
        next_state(cfg, LoopState::Switching(t), LoopEvent::SwitchReturned(0))
            == LoopState::Reporting(t),
        forall|a: Action|
            #[trigger] action_for(cfg, LoopState::Reporting(t), a) ==> match a {
                Action::Publish { topic, payload, retain, qos } => topic@
                    == cfg.status_topic->0@ && payload@ == name_of(t) && retain && qos
                    == Qos::AtMostOnce,
                _ => false,
            },
        next_state(cfg, LoopState::Reporting(t), LoopEvent::Published) == LoopState::Listening,
        forall|a: Action| #[trigger]
            action_for(cfg, LoopState::Listening, a) ==> a == Action::ReceiveNext,
{
    if utf8_decoding(b@) is Ok && names(utf8_decoding(b@)->Ok_0, t) {
        decode_encode_round_trip(utf8_decoding(b@)->Ok_0, t);
    }
}

/// Under the terminating policy a failed switch, or a failed status report, ends the loop
/// with that failure, and an ended loop stays ended and only halts, whatever comes.
pub proof fn post_switch_failure_terminates(
    cfg: LoopConfig,
    t: Topology,
    code: i32,
    m: String,
    f: LoopFailure,
)
    requires
        cfg.on_post_switch_failure == PostSwitchFailure::Terminate,
        code != 0,
    ensures
        next_state(cfg, LoopState::Switching(t), LoopEvent::SwitchReturned(code))
            == LoopState::Stopped(LoopFailure::Switch(SwitchError { code })),
        next_state(cfg, LoopState::Reporting(t), LoopEvent::PublishFailed(m))
            == LoopState::Stopped(LoopFailure::Publish(m)),
        forall|e: LoopEvent| #[trigger]
            next_state(cfg, LoopState::Stopped(f), e) == LoopState::Stopped(f),
        action_for(cfg, LoopState::Stopped(f), Action::Halt),
{
}

/// A transport failure, or the end of the stream, while listening abandons the session:
/// after one backoff a fresh session is opened and subscribed to the trigger topic, and no
/// state on that path holds an event of the old session.
pub proof fn lost_session_restarts_fresh(cfg: LoopConfig, m: String)
    ensures
        next_state(cfg, LoopState::Listening, LoopEvent::TransportFailed(m))
            == LoopState::BackingOff,
        next_state(cfg, LoopState::Listening, LoopEvent::StreamEnded) == LoopState::BackingOff,
        action_for(cfg, LoopState::BackingOff, Action::Sleep { secs: BACKOFF_SECS }),
        next_state(cfg, LoopState::BackingOff, LoopEvent::BackoffElapsed) == LoopState::Connecting,
        action_for(cfg, LoopState::Connecting, Action::OpenSession),
        next_state(cfg, LoopState::Connecting, LoopEvent::SessionOpened) == LoopState::Subscribing,
        forall|a: Action|
            #[trigger] action_for(cfg, LoopState::Subscribing, a) ==> match a {
                Action::Subscribe { topic, qos } => topic@ == cfg.trigger_topic@ && qos
                    == Qos::AtMostOnce,
                _ => false,
            },
{
}

} // verus!
