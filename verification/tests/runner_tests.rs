use opensearch_sdk_rs::context::ExtensionContext;
use opensearch_sdk_rs::error::ExtensionError;
use opensearch_sdk_rs::health::{overall_status, HealthCheck, HealthStatus};
use opensearch_sdk_rs::lifecycle::ExtensionState;
use opensearch_sdk_rs::runner::{
    accept_loop_step, connection_reply, AcceptDecision, ExtensionRunner, RunnerAction, RunnerEvent,
};
use opensearch_sdk_rs::transport::client::TransportClient;

fn new_runner() -> ExtensionRunner {
    let context = ExtensionContext::builder()
        .transport_client(TransportClient::new("localhost", 9300))
        .build()
        .unwrap();
    ExtensionRunner::new(context, 1234).unwrap()
}

#[test]
fn test_run_sequence_happy_path() {
    let mut runner = new_runner();

    assert!(matches!(runner.on_event(RunnerEvent::Start), RunnerAction::Initialize));
    assert_eq!(runner.lifecycle.state, ExtensionState::Initializing);

    assert!(matches!(runner.on_event(RunnerEvent::InitializeOk), RunnerAction::Register));
    assert_eq!(runner.lifecycle.state, ExtensionState::Initialized);

    assert!(matches!(runner.on_event(RunnerEvent::RegistrationFinished), RunnerAction::Bind));
    assert_eq!(runner.lifecycle.state, ExtensionState::Running);

    assert!(matches!(runner.on_event(RunnerEvent::BindOk), RunnerAction::Serve));

    assert!(matches!(
        runner.on_event(RunnerEvent::ShutdownSignal),
        RunnerAction::ShutdownExtension
    ));
    assert_eq!(runner.lifecycle.state, ExtensionState::Stopping);

    match runner.on_event(RunnerEvent::ExtensionShutdownOk) {
        RunnerAction::Finish(r) => assert!(r.is_ok()),
        other => panic!("wrong action: {:?}", other),
    }
    assert_eq!(runner.lifecycle.state, ExtensionState::Stopped);
}

#[test]
fn test_failed_initialize_aborts_without_further_transitions() {
    let mut runner = new_runner();
    runner.on_event(RunnerEvent::Start);
    let action = runner.on_event(RunnerEvent::InitializeFailed(ExtensionError::initialization(
        "boom",
    )));
    match action {
        RunnerAction::Finish(Err(e)) => {
            assert_eq!(e.message(), "Initialization failed: boom");
        }
        other => panic!("wrong action: {:?}", other),
    }
    // known gap preserved: the lifecycle is left non-terminal
    assert_eq!(runner.lifecycle.state, ExtensionState::Initializing);
}

#[test]
fn test_registration_failure_never_aborts() {
    // the driver reports RegistrationFinished whether or not the exchange
    // worked; the runner proceeds to serve either way
    let mut runner = new_runner();
    runner.on_event(RunnerEvent::Start);
    runner.on_event(RunnerEvent::InitializeOk);
    assert!(matches!(runner.on_event(RunnerEvent::RegistrationFinished), RunnerAction::Bind));
    assert_eq!(runner.lifecycle.state, ExtensionState::Running);
}

#[test]
fn test_bind_failure_message_names_the_port() {
    let mut runner = new_runner();
    runner.on_event(RunnerEvent::Start);
    runner.on_event(RunnerEvent::InitializeOk);
    runner.on_event(RunnerEvent::RegistrationFinished);
    let action = runner.on_event(RunnerEvent::BindFailed("address in use".to_string()));
    match action {
        RunnerAction::Finish(Err(e)) => {
            assert_eq!(
                e.message(),
                "Initialization failed: Failed to bind to port 1234: address in use"
            );
        }
        other => panic!("wrong action: {:?}", other),
    }
}

#[test]
fn test_server_error_escapes_to_failed() {
    let mut runner = new_runner();
    runner.on_event(RunnerEvent::Start);
    runner.on_event(RunnerEvent::InitializeOk);
    runner.on_event(RunnerEvent::RegistrationFinished);
    runner.on_event(RunnerEvent::BindOk);
    let action = runner.on_event(RunnerEvent::ServerLoopFailed);
    assert_eq!(runner.lifecycle.state, ExtensionState::Failed);
    match action {
        RunnerAction::Finish(Err(e)) => {
            assert_eq!(
                e.message(),
                "Initialization failed: Invalid state transition from Failed to Stopping"
            );
        }
        other => panic!("wrong action: {:?}", other),
    }
}

#[test]
fn test_accept_loop_step() {
    assert_eq!(accept_loop_step(ExtensionState::Stopping, true), AcceptDecision::Exit);
    assert_eq!(
        accept_loop_step(ExtensionState::Running, true),
        AcceptDecision::HandleConnection
    );
    assert_eq!(
        accept_loop_step(ExtensionState::Running, false),
        AcceptDecision::RetryAfterDelay { delay_millis: 100 }
    );
}

#[test]
fn test_connection_reply() {
    assert!(connection_reply(0).is_none());
    assert_eq!(connection_reply(5).unwrap(), b"Hello from extension".to_vec());
}

#[test]
fn test_overall_health_status() {
    let mk = |name: &str, status: HealthStatus| HealthCheck {
        name: name.to_string(),
        status,
        message: None,
        last_check_millis: 0,
    };
    assert_eq!(overall_status(&vec![]), HealthStatus::Healthy);
    assert_eq!(
        overall_status(&vec![mk("database", HealthStatus::Healthy)]),
        HealthStatus::Healthy
    );
    assert_eq!(
        overall_status(&vec![
            mk("database", HealthStatus::Degraded),
            mk("cache", HealthStatus::Healthy),
        ]),
        HealthStatus::Degraded
    );
    assert_eq!(
        overall_status(&vec![
            mk("database", HealthStatus::Degraded),
            mk("cache", HealthStatus::Unhealthy),
        ]),
        HealthStatus::Unhealthy
    );
}
