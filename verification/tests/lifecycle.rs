use std::io;
use std::time::Duration;

use api::config::ConfigError;
use api::lifecycle::{
    next_step, ApplicationError, RunOutcome, ServerAction, ServerEvent, ServerState,
};

#[test]
fn bind_error_identifies_operation_address_and_cause() {
    let address = "127.0.0.1:8080";
    let error = ApplicationError::Bind {
        address: address.to_owned(),
        cause: io::Error::new(io::ErrorKind::AddrInUse, "test address is in use").to_string(),
    };

    assert_eq!(
        error.message(),
        "bind API listener to 127.0.0.1:8080: test address is in use"
    );
}

#[test]
fn shutdown_deadline_error_identifies_configured_timeout() {
    let error = ApplicationError::ShutdownDeadline {
        timeout_seconds: Duration::from_secs(30).as_secs(),
    };

    assert_eq!(
        error.message(),
        "finish API requests within shutdown deadline of 30 seconds"
    );
}

#[test]
fn other_errors_name_their_operation() {
    assert_eq!(
        ApplicationError::Configuration(ConfigError::Zero { name: "PORT" }).message(),
        "load server configuration: environment variable PORT must be greater than zero"
    );
    assert_eq!(
        ApplicationError::Signal {
            cause: "termination signal stream closed".to_owned()
        }
        .message(),
        "listen for process shutdown: termination signal stream closed"
    );
    assert_eq!(
        ApplicationError::Serve {
            cause: "broken pipe".to_owned()
        }
        .message(),
        "serve API requests: broken pipe"
    );
}

#[test]
fn error_sources_are_the_causes() {
    assert_eq!(
        ApplicationError::Configuration(ConfigError::Invalid { name: "PORT" }).source_message(),
        Some("environment variable PORT has an invalid value".to_owned())
    );
    assert_eq!(
        ApplicationError::Bind {
            address: "0.0.0.0:8080".to_owned(),
            cause: "in use".to_owned()
        }
        .source_message(),
        Some("in use".to_owned())
    );
    assert_eq!(
        ApplicationError::ShutdownDeadline { timeout_seconds: 30 }.source_message(),
        None
    );
}

#[test]
fn shutdown_request_starts_draining_with_configured_deadline() {
    let (state, action) = next_step(
        ServerState::Serving,
        ServerEvent::ShutdownSignal { succeeded: true },
        12,
    );
    assert_eq!(state, ServerState::Draining { deadline_seconds: 12 });
    assert_eq!(action, ServerAction::BeginShutdown { deadline_seconds: 12 });

    let (_, action) = next_step(state, ServerEvent::DeadlineElapsed, 99);
    assert_eq!(
        action,
        ServerAction::Exit(RunOutcome::ShutdownDeadline { timeout_seconds: 12 })
    );

    let (_, action) = next_step(state, ServerEvent::ServerStopped { succeeded: true }, 12);
    assert_eq!(action, ServerAction::Exit(RunOutcome::Completed));
}

#[test]
fn failures_end_the_run() {
    let (_, action) = next_step(
        ServerState::Serving,
        ServerEvent::ShutdownSignal { succeeded: false },
        30,
    );
    assert_eq!(action, ServerAction::Exit(RunOutcome::SignalFailed));

    let (_, action) = next_step(
        ServerState::Serving,
        ServerEvent::ServerStopped { succeeded: false },
        30,
    );
    assert_eq!(action, ServerAction::Exit(RunOutcome::ServeFailed));

    let draining = ServerState::Draining { deadline_seconds: 30 };
    let (_, action) = next_step(draining, ServerEvent::ServerStopped { succeeded: false }, 30);
    assert_eq!(action, ServerAction::Exit(RunOutcome::ServeFailed));
}

#[test]
fn events_that_cannot_matter_are_waited_out() {
    let (state, action) = next_step(ServerState::Serving, ServerEvent::DeadlineElapsed, 30);
    assert_eq!(state, ServerState::Serving);
    assert_eq!(action, ServerAction::Wait);

    let draining = ServerState::Draining { deadline_seconds: 5 };
    let (state, action) = next_step(draining, ServerEvent::ShutdownSignal { succeeded: true }, 30);
    assert_eq!(state, draining);
    assert_eq!(action, ServerAction::Wait);
}
