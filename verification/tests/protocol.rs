use mdbook_docker_run::descriptor::Instance;
use mdbook_docker_run::engine::{
    join_commands, EngineAction, EngineError, EngineEvent, EngineState, Execution,
};

fn alpine_echo() -> Instance {
    Instance {
        image: Some("alpine".to_string()),
        setup: vec![],
        script: vec!["echo hello".to_string()],
        weight: None,
    }
}

#[test]
fn joins_commands_with_the_sequencing_operator() {
    let cmds = vec!["apk add curl".to_string(), "echo hi".to_string(), "true".to_string()];
    assert_eq!(join_commands(&cmds), "apk add curl && echo hi && true");
}

#[test]
fn joining_one_command_adds_nothing() {
    assert_eq!(join_commands(&vec!["echo hello".to_string()]), "echo hello");
}

#[test]
fn joining_no_commands_gives_the_empty_command() {
    assert_eq!(join_commands(&Vec::new()), "");
}

#[test]
fn present_image_skips_the_pull() {
    let (ex, act) = Execution::begin(alpine_echo(), 4);
    assert_eq!(act, EngineAction::Acquire { weight: 1 });
    let (ex, act) = ex.step(EngineEvent::Admitted);
    assert_eq!(act, EngineAction::Inspect { image: "alpine".to_string() });
    let (_, act) = ex.step(EngineEvent::Inspected { found: true });
    assert_eq!(
        act,
        EngineAction::Create {
            image: "alpine".to_string(),
            command: "echo hello".to_string()
        }
    );
}

#[test]
fn missing_image_pulls_exactly_once_before_creation() {
    let (ex, _) = Execution::begin(alpine_echo(), 4);
    let (ex, _) = ex.step(EngineEvent::Admitted);
    let (ex, act) = ex.step(EngineEvent::Inspected { found: false });
    assert_eq!(act, EngineAction::Pull { image: "alpine".to_string() });
    let (ex, act) = ex.step(EngineEvent::PullProgress);
    assert_eq!(act, EngineAction::Observe);
    let (_, act) = ex.step(EngineEvent::PullDone);
    assert_eq!(
        act,
        EngineAction::Create {
            image: "alpine".to_string(),
            command: "echo hello".to_string()
        }
    );
}

#[test]
fn attach_is_issued_before_start() {
    let (ex, _) = Execution::begin(alpine_echo(), 4);
    let (ex, _) = ex.step(EngineEvent::Admitted);
    let (ex, _) = ex.step(EngineEvent::Inspected { found: true });
    let (ex, act) = ex.step(EngineEvent::Created { container: "c1".to_string() });
    assert_eq!(act, EngineAction::Attach { container: "c1".to_string() });
    let (ex, act) = ex.step(EngineEvent::Attached);
    assert_eq!(act, EngineAction::Start { container: "c1".to_string() });
    let (ex, act) = ex.step(EngineEvent::Started);
    assert_eq!(act, EngineAction::Observe);
    assert!(matches!(ex.state, EngineState::Streaming { .. }));
}

#[test]
fn captured_chunks_keep_arrival_order() {
    let (ex, _) = Execution::begin(alpine_echo(), 4);
    let (ex, _) = ex.step(EngineEvent::Admitted);
    let (ex, _) = ex.step(EngineEvent::Inspected { found: true });
    let (ex, _) = ex.step(EngineEvent::Created { container: "c1".to_string() });
    let (ex, _) = ex.step(EngineEvent::Attached);
    let (ex, _) = ex.step(EngineEvent::Started);
    let (ex, _) = ex.step(EngineEvent::OutputChunk { bytes: b"hel".to_vec() });
    let (ex, _) = ex.step(EngineEvent::OutputChunk { bytes: b"lo\n".to_vec() });
    let (ex, act) = ex.step(EngineEvent::OutputEnd);
    assert_eq!(act, EngineAction::Render { bytes: b"hello\n".to_vec() });
    assert_eq!(ex.state, EngineState::Done { output: b"hello\n".to_vec() });
}

#[test]
fn weight_zero_skips_admission_entirely() {
    let mut d = alpine_echo();
    d.weight = Some(0);
    let (_, act) = Execution::begin(d, 4);
    assert_eq!(act, EngineAction::Inspect { image: "alpine".to_string() });
}

#[test]
fn declared_weight_is_capped_by_the_parallelism() {
    let mut d = alpine_echo();
    d.weight = Some(100);
    let (_, act) = Execution::begin(d, 4);
    assert_eq!(act, EngineAction::Acquire { weight: 4 });
}

#[test]
fn missing_image_is_a_configuration_error() {
    let mut d = alpine_echo();
    d.image = None;
    let (ex, _) = Execution::begin(d, 4);
    let (ex, act) = ex.step(EngineEvent::Admitted);
    assert_eq!(act, EngineAction::Fail { error: EngineError::MissingImage });
    assert_eq!(ex.state, EngineState::Failed { error: EngineError::MissingImage });
}

#[test]
fn setup_runs_before_the_script() {
    let mut d = alpine_echo();
    d.setup = vec!["apk add curl".to_string(), "true".to_string()];
    let (ex, _) = Execution::begin(d, 4);
    let (ex, _) = ex.step(EngineEvent::Admitted);
    let (ex, act) = ex.step(EngineEvent::Inspected { found: true });
    assert_eq!(
        act,
        EngineAction::RunSetup {
            image: "alpine".to_string(),
            command: "apk add curl && true".to_string()
        }
    );
    let (_, act) = ex.step(EngineEvent::SetupExited { success: true });
    assert_eq!(
        act,
        EngineAction::Create {
            image: "alpine".to_string(),
            command: "echo hello".to_string()
        }
    );
}

#[test]
fn failing_setup_aborts_before_the_script_runs() {
    let mut d = alpine_echo();
    d.setup = vec!["false".to_string()];
    let (ex, _) = Execution::begin(d, 4);
    let (ex, _) = ex.step(EngineEvent::Admitted);
    let (ex, _) = ex.step(EngineEvent::Inspected { found: true });
    let (ex, act) = ex.step(EngineEvent::SetupExited { success: false });
    assert_eq!(act, EngineAction::Fail { error: EngineError::SetupFailed });
    let (ex, act) = ex.step(EngineEvent::Created { container: "c1".to_string() });
    assert_eq!(act, EngineAction::Fail { error: EngineError::SetupFailed });
    assert_eq!(ex.state, EngineState::Failed { error: EngineError::SetupFailed });
}

#[test]
fn stream_failure_discards_partial_output() {
    let (ex, _) = Execution::begin(alpine_echo(), 4);
    let (ex, _) = ex.step(EngineEvent::Admitted);
    let (ex, _) = ex.step(EngineEvent::Inspected { found: true });
    let (ex, _) = ex.step(EngineEvent::Created { container: "c1".to_string() });
    let (ex, _) = ex.step(EngineEvent::Attached);
    let (ex, _) = ex.step(EngineEvent::Started);
    let (ex, _) = ex.step(EngineEvent::OutputChunk { bytes: b"partial".to_vec() });
    let (ex, act) = ex.step(EngineEvent::StreamFailed);
    assert_eq!(act, EngineAction::Fail { error: EngineError::Stream });
    assert_eq!(ex.state, EngineState::Failed { error: EngineError::Stream });
}

#[test]
fn engine_call_failure_is_fatal() {
    let (ex, _) = Execution::begin(alpine_echo(), 4);
    let (ex, _) = ex.step(EngineEvent::Admitted);
    let (ex, act) = ex.step(EngineEvent::CallFailed);
    assert_eq!(act, EngineAction::Fail { error: EngineError::EngineCall });
    assert_eq!(ex.state, EngineState::Failed { error: EngineError::EngineCall });
}

#[test]
fn unexpected_event_is_a_protocol_error() {
    let (ex, _) = Execution::begin(alpine_echo(), 4);
    let (ex, act) = ex.step(EngineEvent::Started);
    assert_eq!(act, EngineAction::Fail { error: EngineError::Protocol });
    assert!(matches!(ex.state, EngineState::Failed { error: EngineError::Protocol }));
}
