use sidecar_engine::bridge::KillOutcome;
use sidecar_engine::bridge::SinkEvent;
use sidecar_engine::bridge::SpawnOutcome;
use sidecar_engine::bridge::WriteOutcome;
use sidecar_engine::bridge::perform;
use sidecar_engine::bridge::stop;
use sidecar_engine::bridge::synthesize_exchange;
use sidecar_engine::bridge::warmup_exchange;
use sidecar_engine::errors::SidecarError;
use sidecar_engine::protocol::WorkerEvent;
use sidecar_engine::session::SessionManager;

fn out(s: &str) -> WorkerEvent {
    WorkerEvent::StdoutLine(String::from(s))
}

#[test]
fn warmup_succeeds_on_ready_token() {
    let mut mgr = SessionManager::new();
    assert!(mgr.needs_spawn());
    let events = vec![out("SUCCESS|WARMUP")];
    let (forwards, consumed, result) =
        warmup_exchange(&mut mgr, &SpawnOutcome::Launched, &WriteOutcome::Delivered, &events);
    assert_eq!(result, Ok(()));
    assert_eq!(consumed, 1);
    assert!(forwards.is_empty());
    assert!(!mgr.needs_spawn());
}

#[test]
fn warmup_rejects_any_other_payload() {
    let mut mgr = SessionManager::new();
    let events = vec![out("SUCCESS|READY")];
    let (_, _, result) =
        warmup_exchange(&mut mgr, &SpawnOutcome::Launched, &WriteOutcome::Delivered, &events);
    assert_eq!(
        result,
        Err(SidecarError::ProtocolViolation(String::from("READY")))
    );
    // A violation is not fatal: the worker stays live.
    assert!(!mgr.needs_spawn());
}

#[test]
fn synthesis_forwards_logs_and_returns_payload() {
    let mut mgr = SessionManager::new();
    let events = vec![out("Loading model..."), out("SUCCESS|/out/audio.wav")];
    let (forwards, consumed, result) =
        synthesize_exchange(&mut mgr, &SpawnOutcome::Launched, &WriteOutcome::Delivered, &events);
    assert_eq!(result, Ok(String::from("/out/audio.wav")));
    assert_eq!(consumed, 2);
    assert_eq!(forwards, vec![SinkEvent::Log(String::from("Loading model..."))]);
    assert!(!mgr.needs_spawn());
}

#[test]
fn synthesis_rejects_reserved_control_tokens() {
    for token in ["WARMUP", "SHUTDOWN"] {
        let mut mgr = SessionManager::new();
        let events = vec![out(&format!("SUCCESS|{token}"))];
        let (_, _, result) = synthesize_exchange(
            &mut mgr,
            &SpawnOutcome::Launched,
            &WriteOutcome::Delivered,
            &events,
        );
        assert_eq!(
            result,
            Err(SidecarError::ProtocolViolation(String::from(token)))
        );
        assert!(!mgr.needs_spawn());
    }
}

#[test]
fn crash_mid_exchange_clears_session_and_next_call_respawns() {
    let mut mgr = SessionManager::new();
    let events = vec![WorkerEvent::Exited(Some(1))];
    let (forwards, _, result) =
        perform(&mut mgr, &SpawnOutcome::Launched, &WriteOutcome::Delivered, &events);
    assert_eq!(result, Err(SidecarError::WorkerCrashed(Some(1))));
    assert!(forwards.is_empty());
    assert!(mgr.needs_spawn());

    // The next call spawns afresh and can succeed.
    let events = vec![out("SUCCESS|WARMUP")];
    let (_, _, result) =
        warmup_exchange(&mut mgr, &SpawnOutcome::Launched, &WriteOutcome::Delivered, &events);
    assert_eq!(result, Ok(()));
    assert!(!mgr.needs_spawn());
}

#[test]
fn closed_channel_clears_session() {
    let mut mgr = SessionManager::new();
    let events = vec![WorkerEvent::Closed];
    let (_, _, result) =
        perform(&mut mgr, &SpawnOutcome::Launched, &WriteOutcome::Delivered, &events);
    assert_eq!(result, Err(SidecarError::ChannelClosed));
    assert!(mgr.needs_spawn());
}

#[test]
fn exhausted_stream_counts_as_closed_channel() {
    let mut mgr = SessionManager::new();
    let events = vec![out("only a log line")];
    let (forwards, consumed, result) =
        perform(&mut mgr, &SpawnOutcome::Launched, &WriteOutcome::Delivered, &events);
    assert_eq!(result, Err(SidecarError::ChannelClosed));
    assert_eq!(consumed, 1);
    assert_eq!(forwards, vec![SinkEvent::Log(String::from("only a log line"))]);
    assert!(mgr.needs_spawn());
}

#[test]
fn spawn_failure_surfaces_and_leaves_slot_empty() {
    let mut mgr = SessionManager::new();
    let events: Vec<WorkerEvent> = Vec::new();
    let (forwards, consumed, result) = perform(
        &mut mgr,
        &SpawnOutcome::Failed(String::from("binary not found")),
        &WriteOutcome::Delivered,
        &events,
    );
    assert_eq!(
        result,
        Err(SidecarError::SpawnFailure(String::from("binary not found")))
    );
    assert_eq!(consumed, 0);
    assert!(forwards.is_empty());
    assert!(mgr.needs_spawn());
}

#[test]
fn write_failure_keeps_worker_live() {
    let mut mgr = SessionManager::new();
    let events: Vec<WorkerEvent> = Vec::new();
    let (_, consumed, result) = perform(
        &mut mgr,
        &SpawnOutcome::Launched,
        &WriteOutcome::Failed(String::from("broken pipe")),
        &events,
    );
    assert_eq!(
        result,
        Err(SidecarError::WriteFailure(String::from("broken pipe")))
    );
    assert_eq!(consumed, 0);
    assert!(!mgr.needs_spawn());
}

#[test]
fn worker_reported_failure_keeps_worker_live() {
    let mut mgr = SessionManager::new();
    let events = vec![
        WorkerEvent::StderrLine(String::from("traceback")),
        out("ERROR| synthesis failed "),
    ];
    let (forwards, consumed, result) =
        perform(&mut mgr, &SpawnOutcome::Launched, &WriteOutcome::Delivered, &events);
    assert_eq!(
        result,
        Err(SidecarError::WorkerReportedFailure(String::from("synthesis failed")))
    );
    assert_eq!(consumed, 2);
    assert_eq!(
        forwards,
        vec![SinkEvent::Diagnostic(String::from("traceback"))]
    );
    assert!(!mgr.needs_spawn());
}

#[test]
fn events_after_the_terminal_one_stay_unread() {
    let mut mgr = SessionManager::new();
    let events = vec![out("SUCCESS|first"), out("SUCCESS|second")];
    let (_, consumed, result) =
        perform(&mut mgr, &SpawnOutcome::Launched, &WriteOutcome::Delivered, &events);
    assert_eq!(result, Ok(String::from("first")));
    assert_eq!(consumed, 1);
}

#[test]
fn session_is_reused_across_successful_calls() {
    let mut mgr = SessionManager::new();
    let events = vec![out("SUCCESS|WARMUP")];
    let (_, _, first) =
        warmup_exchange(&mut mgr, &SpawnOutcome::Launched, &WriteOutcome::Delivered, &events);
    assert_eq!(first, Ok(()));
    // The second call must not consult its spawn outcome: a failed one is
    // handed in, and the call still succeeds against the live worker.
    let events = vec![out("SUCCESS|/out/a.wav")];
    let (_, _, second) = synthesize_exchange(
        &mut mgr,
        &SpawnOutcome::Failed(String::from("must not be consulted")),
        &WriteOutcome::Delivered,
        &events,
    );
    assert_eq!(second, Ok(String::from("/out/a.wav")));
    assert!(!mgr.needs_spawn());
}

#[test]
fn warmup_passes_a_worker_reported_failure_through() {
    let mut mgr = SessionManager::new();
    let events = vec![out("ERROR|model download failed")];
    let (_, _, result) =
        warmup_exchange(&mut mgr, &SpawnOutcome::Launched, &WriteOutcome::Delivered, &events);
    assert_eq!(
        result,
        Err(SidecarError::WorkerReportedFailure(String::from("model download failed")))
    );
    assert!(!mgr.needs_spawn());
}

#[test]
fn signal_termination_carries_no_exit_code() {
    let mut mgr = SessionManager::new();
    let events = vec![WorkerEvent::Exited(None)];
    let (_, _, result) =
        perform(&mut mgr, &SpawnOutcome::Launched, &WriteOutcome::Delivered, &events);
    assert_eq!(result, Err(SidecarError::WorkerCrashed(None)));
    assert!(mgr.needs_spawn());
}

#[test]
fn stop_without_a_session_is_a_successful_no_op() {
    let mut mgr = SessionManager::new();
    let result = stop(&mut mgr, &KillOutcome::Killed);
    assert_eq!(result, Ok(()));
    assert!(mgr.needs_spawn());
}

#[test]
fn stop_kills_a_live_worker() {
    let mut mgr = SessionManager::new();
    let events = vec![out("SUCCESS|WARMUP")];
    let (_, _, _) =
        warmup_exchange(&mut mgr, &SpawnOutcome::Launched, &WriteOutcome::Delivered, &events);
    assert!(!mgr.needs_spawn());
    let result = stop(&mut mgr, &KillOutcome::Killed);
    assert_eq!(result, Ok(()));
    assert!(mgr.needs_spawn());
}

#[test]
fn stop_clears_the_slot_even_when_the_kill_fails() {
    let mut mgr = SessionManager::new();
    let events = vec![out("SUCCESS|WARMUP")];
    let (_, _, _) =
        warmup_exchange(&mut mgr, &SpawnOutcome::Launched, &WriteOutcome::Delivered, &events);
    let result = stop(&mut mgr, &KillOutcome::Failed(String::from("access denied")));
    assert_eq!(
        result,
        Err(SidecarError::KillFailure(String::from("access denied")))
    );
    assert!(mgr.needs_spawn());
}
