use std::collections::VecDeque;

use screen_switch::subscriber::{
    initial_state, next_action, step, Action, Diagnostic, LoopConfig, LoopEvent, LoopFailure,
    LoopState, PostSwitchFailure, Qos, BACKOFF_SECS,
};
use screen_switch::topology::{SwitchError, Topology, UnrecognizedTopology};

/// A broker and a platform that answer from scripts.
struct Sim {
    subscribe_results: VecDeque<Result<(), String>>,
    sessions: VecDeque<VecDeque<LoopEvent>>,
    current: Option<VecDeque<LoopEvent>>,
    switch_codes: VecDeque<i32>,
    publish_results: VecDeque<Result<(), String>>,
}

impl Sim {
    fn new(sessions: Vec<Vec<LoopEvent>>) -> Sim {
        Sim {
            subscribe_results: VecDeque::new(),
            sessions: sessions.into_iter().map(VecDeque::from).collect(),
            current: None,
            switch_codes: VecDeque::new(),
            publish_results: VecDeque::new(),
        }
    }

    /// The outcome of `action`, or `None` once the scripts are used up.
    fn answer(&mut self, action: &Action) -> Option<LoopEvent> {
        match action {
            Action::OpenSession => {
                self.current = Some(self.sessions.pop_front()?);
                Some(LoopEvent::SessionOpened)
            }
            Action::Subscribe { .. } => match self.subscribe_results.pop_front() {
                Some(Err(m)) => Some(LoopEvent::SubscribeFailed(m)),
                _ => Some(LoopEvent::Subscribed),
            },
            Action::ReceiveNext => {
                let stream = self.current.as_mut()?;
                Some(stream.pop_front().unwrap_or(LoopEvent::StreamEnded))
            }
            Action::Switch { .. } => Some(LoopEvent::SwitchReturned(self.switch_codes.pop_front().unwrap_or(0))),
            Action::Publish { .. } => match self.publish_results.pop_front() {
                Some(Err(m)) => Some(LoopEvent::PublishFailed(m)),
                _ => Some(LoopEvent::Published),
            },
            Action::Sleep { .. } => {
                if self.sessions.is_empty() {
                    None
                } else {
                    Some(LoopEvent::BackoffElapsed)
                }
            }
            Action::Halt => None,
        }
    }
}

struct Run {
    actions: Vec<Action>,
    diagnostics: Vec<Diagnostic>,
    state: LoopState,
}

fn drive(cfg: &LoopConfig, sim: &mut Sim) -> Run {
    let mut state = initial_state();
    let mut actions = Vec::new();
    let mut diagnostics = Vec::new();
    for _ in 0..1000 {
        let action = next_action(cfg, &state);
        let event = sim.answer(&action);
        actions.push(action);
        let Some(event) = event else { break };
        let s = step(cfg, state, event);
        state = s.state;
        diagnostics.extend(s.diagnostic);
    }
    Run { actions, diagnostics, state }
}

fn config(status: Option<&str>, policy: PostSwitchFailure) -> LoopConfig {
    LoopConfig {
        trigger_topic: "screen-switch".to_string(),
        status_topic: status.map(|s| s.to_string()),
        on_post_switch_failure: policy,
    }
}

fn message(text: &str) -> LoopEvent {
    LoopEvent::Message(text.as_bytes().to_vec())
}

fn switches(run: &Run) -> Vec<Topology> {
    run.actions
        .iter()
        .filter_map(|a| match a {
            Action::Switch { topology, .. } => Some(*topology),
            _ => None,
        })
        .collect()
}

fn count(run: &Run, pred: impl Fn(&Action) -> bool) -> usize {
    run.actions.iter().filter(|a| pred(a)).count()
}

#[test]
fn failed_subscribe_reconnects_once_then_listens() {
    let cfg = config(None, PostSwitchFailure::Terminate);
    let mut sim = Sim::new(vec![vec![], vec![message("clone")]]);
    sim.subscribe_results.push_back(Err("connection refused".to_string()));
    let run = drive(&cfg, &mut sim);
    assert_eq!(
        &run.actions[..5],
        &[
            Action::OpenSession,
            Action::Subscribe { topic: "screen-switch".to_string(), qos: Qos::AtMostOnce },
            Action::Sleep { secs: BACKOFF_SECS },
            Action::OpenSession,
            Action::Subscribe { topic: "screen-switch".to_string(), qos: Qos::AtMostOnce },
        ]
    );
    assert_eq!(run.actions[5], Action::ReceiveNext);
    assert_eq!(count(&run, |a| matches!(a, Action::Subscribe { .. })), 2);
    assert_eq!(run.diagnostics[0], Diagnostic::SubscribeFailed("connection refused".to_string()));
    assert_eq!(switches(&run), vec![Topology::Clone]);
    assert_eq!(BACKOFF_SECS, 10);
}

#[test]
fn non_text_payload_is_logged_and_skipped() {
    let cfg = config(None, PostSwitchFailure::Terminate);
    let mut sim = Sim::new(vec![vec![LoopEvent::Message(vec![0x61, 0x62, 0xff, 0xfe]), message("clone")]]);
    let run = drive(&cfg, &mut sim);
    assert_eq!(run.diagnostics[0], Diagnostic::PayloadNotText { valid_up_to: 2 });
    assert_eq!(run.diagnostics[1], Diagnostic::Switching(Topology::Clone));
    assert_eq!(switches(&run), vec![Topology::Clone]);
    assert_eq!(count(&run, |a| matches!(a, Action::OpenSession)), 1);
}

#[test]
fn unrecognized_topology_is_logged_and_skipped() {
    let cfg = config(None, PostSwitchFailure::Terminate);
    let mut sim = Sim::new(vec![vec![message("sideways"), message("INTERNAL")]]);
    let run = drive(&cfg, &mut sim);
    assert_eq!(
        run.diagnostics[0],
        Diagnostic::UnrecognizedTopology(UnrecognizedTopology { text: "sideways".to_string() })
    );
    assert_eq!(switches(&run), vec![Topology::Internal]);
}

#[test]
fn other_events_are_ignored_silently() {
    let cfg = config(None, PostSwitchFailure::Terminate);
    let mut sim = Sim::new(vec![vec![LoopEvent::OtherEvent, LoopEvent::OtherEvent, message("external")]]);
    let run = drive(&cfg, &mut sim);
    assert_eq!(run.diagnostics[0], Diagnostic::Switching(Topology::External));
    assert_eq!(switches(&run), vec![Topology::External]);
}

#[test]
fn successful_switch_publishes_status_once() {
    let cfg = config(Some("screen-switch-status"), PostSwitchFailure::Terminate);
    let mut sim = Sim::new(vec![vec![message("extend")]]);
    let run = drive(&cfg, &mut sim);
    let publishes: Vec<&Action> = run.actions.iter().filter(|a| matches!(a, Action::Publish { .. })).collect();
    assert_eq!(
        publishes,
        vec![&Action::Publish {
            topic: "screen-switch-status".to_string(),
            payload: "extend".to_string(),
            retain: true,
            qos: Qos::AtMostOnce,
        }]
    );
    assert_eq!(
        run.actions.iter().position(|a| matches!(a, Action::Switch { .. })).unwrap() + 1,
        run.actions.iter().position(|a| matches!(a, Action::Publish { .. })).unwrap()
    );
    assert_eq!(switches(&run), vec![Topology::Extend]);
}

#[test]
fn switch_carries_apply_and_topology_flags() {
    let cfg = config(None, PostSwitchFailure::Terminate);
    let mut sim = Sim::new(vec![vec![message("Supplied")]]);
    let run = drive(&cfg, &mut sim);
    assert!(run.actions.contains(&Action::Switch { topology: Topology::Supplied, flags: 0x90 }));
}

#[test]
fn no_status_topic_publishes_nothing() {
    let cfg = config(None, PostSwitchFailure::Terminate);
    let mut sim = Sim::new(vec![vec![message("extend"), message("clone")]]);
    let run = drive(&cfg, &mut sim);
    assert_eq!(count(&run, |a| matches!(a, Action::Publish { .. })), 0);
    assert_eq!(switches(&run), vec![Topology::Extend, Topology::Clone]);
}

#[test]
fn failing_switch_terminates_the_loop() {
    let cfg = config(Some("screen-switch-status"), PostSwitchFailure::Terminate);
    let mut sim = Sim::new(vec![vec![message("internal"), message("clone")]]);
    sim.switch_codes.push_back(31);
    let run = drive(&cfg, &mut sim);
    assert_eq!(run.state, LoopState::Stopped(LoopFailure::Switch(SwitchError { code: 31 })));
    assert_eq!(run.actions.last(), Some(&Action::Halt));
    assert_eq!(switches(&run), vec![Topology::Internal]);
    assert_eq!(count(&run, |a| matches!(a, Action::Publish { .. })), 0);
}

#[test]
fn failing_switch_continues_when_so_configured() {
    let cfg = config(None, PostSwitchFailure::LogAndContinue);
    let mut sim = Sim::new(vec![vec![message("internal"), message("clone")]]);
    sim.switch_codes.push_back(31);
    let run = drive(&cfg, &mut sim);
    assert!(run.diagnostics.contains(&Diagnostic::SwitchFailed(SwitchError { code: 31 })));
    assert_eq!(switches(&run), vec![Topology::Internal, Topology::Clone]);
}

#[test]
fn failing_status_publish_terminates_the_loop() {
    let cfg = config(Some("status"), PostSwitchFailure::Terminate);
    let mut sim = Sim::new(vec![vec![message("clone"), message("extend")]]);
    sim.publish_results.push_back(Err("queue full".to_string()));
    let run = drive(&cfg, &mut sim);
    assert_eq!(run.state, LoopState::Stopped(LoopFailure::Publish("queue full".to_string())));
    assert_eq!(switches(&run), vec![Topology::Clone]);
}

#[test]
fn failing_status_publish_continues_when_so_configured() {
    let cfg = config(Some("status"), PostSwitchFailure::LogAndContinue);
    let mut sim = Sim::new(vec![vec![message("clone"), message("extend")]]);
    sim.publish_results.push_back(Err("queue full".to_string()));
    let run = drive(&cfg, &mut sim);
    assert!(run.diagnostics.contains(&Diagnostic::PublishFailed("queue full".to_string())));
    assert_eq!(switches(&run), vec![Topology::Clone, Topology::Extend]);
}

#[test]
fn transport_error_restarts_with_a_fresh_session() {
    let cfg = config(None, PostSwitchFailure::Terminate);
    let mut sim = Sim::new(vec![
        vec![message("internal"), LoopEvent::TransportFailed("reset".to_string()), message("clone")],
        vec![message("external")],
    ]);
    let run = drive(&cfg, &mut sim);
    assert!(run.diagnostics.contains(&Diagnostic::ReceiveFailed("reset".to_string())));
    let sleep = run.actions.iter().position(|a| matches!(a, Action::Sleep { .. })).unwrap();
    assert_eq!(run.actions[sleep], Action::Sleep { secs: BACKOFF_SECS });
    assert_eq!(run.actions[sleep + 1], Action::OpenSession);
    assert!(matches!(run.actions[sleep + 2], Action::Subscribe { .. }));
    assert_eq!(switches(&run), vec![Topology::Internal, Topology::External]);
}

#[test]
fn clean_stream_end_restarts_after_backoff() {
    let cfg = config(None, PostSwitchFailure::Terminate);
    let mut sim = Sim::new(vec![vec![], vec![message("extend")]]);
    let run = drive(&cfg, &mut sim);
    assert_eq!(run.diagnostics[0], Diagnostic::Disconnected);
    assert_eq!(count(&run, |a| matches!(a, Action::OpenSession)), 2);
    assert_eq!(switches(&run), vec![Topology::Extend]);
}

#[test]
fn stopped_loop_stays_stopped() {
    let cfg = config(None, PostSwitchFailure::Terminate);
    let stopped = LoopState::Stopped(LoopFailure::Switch(SwitchError { code: 2 }));
    let s = step(&cfg, stopped, LoopEvent::SessionOpened);
    assert_eq!(s.state, LoopState::Stopped(LoopFailure::Switch(SwitchError { code: 2 })));
    assert_eq!(s.diagnostic, None);
    assert_eq!(next_action(&cfg, &s.state), Action::Halt);
}

#[test]
fn unexpected_event_leaves_the_state() {
    let cfg = config(None, PostSwitchFailure::Terminate);
    let s = step(&cfg, LoopState::Connecting, LoopEvent::Published);
    assert_eq!(s.state, LoopState::Connecting);
    assert_eq!(s.diagnostic, None);
    let s = step(&cfg, LoopState::BackingOff, message("clone"));
    assert_eq!(s.state, LoopState::BackingOff);
}
