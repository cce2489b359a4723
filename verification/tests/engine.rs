use sidecar_engine::bootstrap::LaunchStrategy;
use sidecar_engine::bootstrap::launch_plan;
use sidecar_engine::bridge::ExchangeStep;
use sidecar_engine::bridge::SinkEvent;
use sidecar_engine::bridge::exchange_step;
use sidecar_engine::errors::SidecarError;
use sidecar_engine::protocol::ProtocolLine;

#[test]
fn launch_plan_for_packaged_worker() {
    let plan = launch_plan(&LaunchStrategy::Packaged {
        program: String::from("voice-engine"),
    });
    assert_eq!(plan.program, "voice-engine");
    assert_eq!(plan.args, vec![String::from("--daemon")]);
    assert_eq!(plan.env_key, "TORCH_FORCE_NO_WEIGHTS_ONLY_LOAD");
    assert_eq!(plan.env_value, "1");
}

#[test]
fn launch_plan_for_interpreter_and_script() {
    let plan = launch_plan(&LaunchStrategy::Interpreter {
        interpreter: String::from("/venv/bin/python"),
        script: String::from("/sidecar/main.py"),
    });
    assert_eq!(plan.program, "/venv/bin/python");
    assert_eq!(
        plan.args,
        vec![
            String::from("-u"),
            String::from("/sidecar/main.py"),
            String::from("--daemon"),
        ]
    );
    assert_eq!(plan.env_key, "TORCH_FORCE_NO_WEIGHTS_ONLY_LOAD");
    assert_eq!(plan.env_value, "1");
}

#[test]
fn exchange_step_dispatch_is_exhaustive() {
    assert_eq!(
        exchange_step(ProtocolLine::Success(String::from("p"))),
        ExchangeStep::Finished(Ok(String::from("p")))
    );
    assert_eq!(
        exchange_step(ProtocolLine::Failure(String::from("m"))),
        ExchangeStep::Finished(Err(SidecarError::WorkerReportedFailure(String::from("m"))))
    );
    assert_eq!(
        exchange_step(ProtocolLine::Log(String::from("l"))),
        ExchangeStep::Forward(SinkEvent::Log(String::from("l")))
    );
    assert_eq!(
        exchange_step(ProtocolLine::ErrorStream(String::from("e"))),
        ExchangeStep::Forward(SinkEvent::Diagnostic(String::from("e")))
    );
    assert_eq!(
        exchange_step(ProtocolLine::Terminated(Some(9))),
        ExchangeStep::Finished(Err(SidecarError::WorkerCrashed(Some(9))))
    );
    assert_eq!(
        exchange_step(ProtocolLine::ChannelClosed),
        ExchangeStep::Finished(Err(SidecarError::ChannelClosed))
    );
}

#[test]
fn error_messages_are_descriptive() {
    assert_eq!(
        SidecarError::SpawnFailure(String::from("no binary")).message(),
        "failed to spawn the worker: no binary"
    );
    assert_eq!(
        SidecarError::WriteFailure(String::from("pipe")).message(),
        "failed to send the request to the worker: pipe"
    );
    assert_eq!(
        SidecarError::WorkerReportedFailure(String::from("bad input")).message(),
        "bad input"
    );
    assert_eq!(
        SidecarError::WorkerCrashed(Some(1)).message(),
        "worker crashed or stopped with code 1"
    );
    assert_eq!(
        SidecarError::WorkerCrashed(Some(-17)).message(),
        "worker crashed or stopped with code -17"
    );
    assert_eq!(
        SidecarError::WorkerCrashed(None).message(),
        "worker crashed or stopped without an exit code"
    );
    assert_eq!(
        SidecarError::ChannelClosed.message(),
        "worker channel closed unexpectedly"
    );
    assert_eq!(
        SidecarError::ProtocolViolation(String::from("WARMUP")).message(),
        "unexpected worker response: WARMUP"
    );
    assert_eq!(
        SidecarError::KillFailure(String::from("denied")).message(),
        "failed to kill the worker process: denied"
    );
}

#[test]
fn extreme_exit_codes_render_exactly() {
    assert_eq!(
        SidecarError::WorkerCrashed(Some(i32::MAX)).message(),
        "worker crashed or stopped with code 2147483647"
    );
    assert_eq!(
        SidecarError::WorkerCrashed(Some(i32::MIN)).message(),
        "worker crashed or stopped with code -2147483648"
    );
}
