//! The server's life once it listens: it serves until it stops by itself or a
//! shutdown is requested; a requested shutdown drains the open requests within
//! the configured deadline. Also the errors that end a run, and their text.
use vstd::prelude::*;

use crate::config::{error_message, ConfigError, ConfigErrorView};
use crate::decimal::{decimal_digits, decimal_text};

verus! {

/// Where the server is in its life.
#[derive(Clone, Copy, Debug, PartialEq, Eq)]
pub enum ServerState {
    /// Accepting and serving requests.
    Serving,
    /// No longer accepting; the open requests have `deadline_seconds` to finish.
    Draining { deadline_seconds: u64 },
}

/// What happened while the server was running.
#[derive(Clone, Copy, Debug, PartialEq, Eq)]
pub enum ServerEvent {
    /// The server stopped by itself, with or without an error.
    ServerStopped { succeeded: bool },
    /// Listening for a shutdown request ended: a request came, or listening failed.
    ShutdownSignal { succeeded: bool },
    /// The shutdown deadline passed before the server stopped.
    DeadlineElapsed,
}

/// How a run ended.
#[derive(Clone, Copy, Debug, PartialEq, Eq)]
pub enum RunOutcome {
    /// The server stopped without an error.
    Completed,
    /// Serving failed.
    ServeFailed,
    /// Listening for a shutdown request failed.
    SignalFailed,
    /// The open requests did not finish within the shutdown deadline.
    ShutdownDeadline { timeout_seconds: u64 },
}

/// What to do next.
#[derive(Clone, Copy, Debug, PartialEq, Eq)]
pub enum ServerAction {
    /// Keep waiting for the next event.
    Wait,
    /// Stop accepting requests and give the open ones `deadline_seconds` to finish.
    BeginShutdown { deadline_seconds: u64 },
    /// End the run.
    Exit(RunOutcome),
}

/// The outcome of a server that stopped by itself.
pub open spec fn stopped_outcome(succeeded: bool) -> RunOutcome {
    if succeeded {
        RunOutcome::Completed
    } else {
        RunOutcome::ServeFailed
    }
}

/// The next state and action after `event` in `state`, where a graceful
/// shutdown may take `shutdown_timeout_seconds`.
pub open spec fn transition(state: ServerState, event: ServerEvent, shutdown_timeout_seconds: u64) -> (
    ServerState,
    ServerAction,
) {
    match (state, event) {
        (_, ServerEvent::ServerStopped { succeeded }) => (
            state,
            ServerAction::Exit(stopped_outcome(succeeded)),
        ),
        (ServerState::Serving, ServerEvent::ShutdownSignal { succeeded }) => if succeeded {
            (
                ServerState::Draining { deadline_seconds: shutdown_timeout_seconds },
                ServerAction::BeginShutdown { deadline_seconds: shutdown_timeout_seconds },
            )
        } else {
            (state, ServerAction::Exit(RunOutcome::SignalFailed))
        },
        (ServerState::Draining { deadline_seconds }, ServerEvent::DeadlineElapsed) => (
            state,
            ServerAction::Exit(RunOutcome::ShutdownDeadline { timeout_seconds: deadline_seconds }),
        ),
        (_, _) => (state, ServerAction::Wait),
    }
}

/// Decides what follows `event` in `state`.
pub fn next_step(state: ServerState, event: ServerEvent, shutdown_timeout_seconds: u64) -> (res: (
    ServerState,
    ServerAction,
))
    ensures
        res == transition(state, event, shutdown_timeout_seconds),
{
    match event {
        ServerEvent::ServerStopped { succeeded } => {
            let outcome = if succeeded {
                RunOutcome::Completed
            } else {
                RunOutcome::ServeFailed
            };
            (state, ServerAction::Exit(outcome))
        },
        ServerEvent::ShutdownSignal { succeeded } => match state {
            ServerState::Serving => if succeeded {
                (
                    ServerState::Draining { deadline_seconds: shutdown_timeout_seconds },
                    ServerAction::BeginShutdown { deadline_seconds: shutdown_timeout_seconds },
                )
            } else {
                (state, ServerAction::Exit(RunOutcome::SignalFailed))
            },
            ServerState::Draining { .. } => (state, ServerAction::Wait),
        },
        ServerEvent::DeadlineElapsed => match state {
            ServerState::Draining { deadline_seconds } => (
                state,
                ServerAction::Exit(RunOutcome::ShutdownDeadline { timeout_seconds: deadline_seconds }),
            ),
            ServerState::Serving => (state, ServerAction::Wait),
        },
    }
}

/// A shutdown starts only on a shutdown request while serving, and then with
/// the configured deadline.
pub proof fn lemma_shutdown_starts_on_request(
    state: ServerState,
    event: ServerEvent,
    shutdown_timeout_seconds: u64,
)
    ensures
        (transition(state, event, shutdown_timeout_seconds).1 is BeginShutdown) ==> ({
            &&& state == ServerState::Serving
            &&& event == (ServerEvent::ShutdownSignal { succeeded: true })
            &&& transition(state, event, shutdown_timeout_seconds).1
                == (ServerAction::BeginShutdown { deadline_seconds: shutdown_timeout_seconds })
        }),
{
}

/// A run ends for a missed deadline only while draining, and reports the
/// deadline with which the draining began.
pub proof fn lemma_deadline_only_while_draining(
    state: ServerState,
    event: ServerEvent,
    shutdown_timeout_seconds: u64,
    timeout_seconds: u64,
)
    ensures
        transition(state, event, shutdown_timeout_seconds).1 == ServerAction::Exit(
            (RunOutcome::ShutdownDeadline { timeout_seconds }),
        ) ==> (state == (ServerState::Draining { deadline_seconds: timeout_seconds })),
{
}

/// A run is reported as completed only when the server stopped without error.
pub proof fn lemma_completed_only_on_clean_stop(
    state: ServerState,
    event: ServerEvent,
    shutdown_timeout_seconds: u64,
)
    ensures
        transition(state, event, shutdown_timeout_seconds).1 == ServerAction::Exit(
            RunOutcome::Completed,
        ) ==> (event == (ServerEvent::ServerStopped { succeeded: true })),
{
}

/// While draining, the server stopping or the deadline passing always ends
/// the run: the shutdown is bounded by its deadline.
pub proof fn lemma_draining_ends(state: ServerState, event: ServerEvent, shutdown_timeout_seconds: u64)
    requires
        (state is Draining),
        (event is ServerStopped) || (event is DeadlineElapsed),
    ensures
        (transition(state, event, shutdown_timeout_seconds).1 is Exit),
{
}

/// Why a run of the server ended with an error. Causes that come from the
/// system are held as their text.
#[derive(Debug, PartialEq, Eq)]
pub enum ApplicationError {
    /// The settings could not be read.
    Configuration(ConfigError),
    /// The listener could not be bound to `address`.
    Bind { address: String, cause: String },
    /// Listening for a shutdown request failed.
    Signal { cause: String },
    /// The open requests did not finish within the shutdown deadline.
    ShutdownDeadline { timeout_seconds: u64 },
    /// Serving requests failed.
    Serve { cause: String },
}

/// An [`ApplicationError`] as plain values.
pub enum ApplicationErrorView {
    Configuration(ConfigErrorView),
    Bind { address: Seq<char>, cause: Seq<char> },
    Signal { cause: Seq<char> },
    ShutdownDeadline { timeout_seconds: nat },
    Serve { cause: Seq<char> },
}

impl View for ApplicationError {
    type V = ApplicationErrorView;

    open spec fn view(&self) -> ApplicationErrorView {
        match self {
            ApplicationError::Configuration(e) => ApplicationErrorView::Configuration(e@),
            ApplicationError::Bind { address, cause } => ApplicationErrorView::Bind {
                address: address@,
                cause: cause@,
            },
            ApplicationError::Signal { cause } => ApplicationErrorView::Signal { cause: cause@ },
            ApplicationError::ShutdownDeadline { timeout_seconds } =>
                ApplicationErrorView::ShutdownDeadline { timeout_seconds: *timeout_seconds as nat },
            ApplicationError::Serve { cause } => ApplicationErrorView::Serve { cause: cause@ },
        }
    }
}

/// The text of the error: the operation that failed, then its cause.
pub open spec fn application_message(e: ApplicationErrorView) -> Seq<char> {
    match e {
        ApplicationErrorView::Configuration(c) => "load server configuration: "@ + error_message(c),
        ApplicationErrorView::Bind { address, cause } => "bind API listener to "@ + address
            + ": "@ + cause,
        ApplicationErrorView::Signal { cause } => "listen for process shutdown: "@ + cause,
        ApplicationErrorView::ShutdownDeadline { timeout_seconds } =>
            "finish API requests within shutdown deadline of "@ + decimal_digits(timeout_seconds)
                + " seconds"@,
        ApplicationErrorView::Serve { cause } => "serve API requests: "@ + cause,
    }
}

/// The text of the error's cause, where it has one.
pub open spec fn application_source(e: ApplicationErrorView) -> Option<Seq<char>> {
    match e {
        ApplicationErrorView::Configuration(c) => Some(error_message(c)),
        ApplicationErrorView::Bind { cause, .. } => Some(cause),
        ApplicationErrorView::Signal { cause } => Some(cause),
        ApplicationErrorView::ShutdownDeadline { .. } => None,
        ApplicationErrorView::Serve { cause } => Some(cause),
    }
}

impl ApplicationError {
    /// The text of the error as it is shown to an operator.
    pub fn message(&self) -> (res: String)
        ensures
            res@ == application_message(self@),
    {
        match self {
            ApplicationError::Configuration(e) => {
                let mut text = String::from_str("load server configuration: ");
                let detail = e.message();
                text.append(detail.as_str());
                text
            },
            ApplicationError::Bind { address, cause } => {
                let mut text = String::from_str("bind API listener to ");
                text.append(address.as_str());
                text.append(": ");
                text.append(cause.as_str());
                text
            },
            ApplicationError::Signal { cause } => {
                let mut text = String::from_str("listen for process shutdown: ");
                text.append(cause.as_str());
                text
            },
            ApplicationError::ShutdownDeadline { timeout_seconds } => {
                let mut text = String::from_str("finish API requests within shutdown deadline of ");
                let seconds = decimal_text(*timeout_seconds);
                text.append(seconds.as_str());
                text.append(" seconds");
                text
            },
            ApplicationError::Serve { cause } => {
                let mut text = String::from_str("serve API requests: ");
                text.append(cause.as_str());
                text
            },
        }
    }

    /// The text of the error's cause: the configuration error or the system's
    /// error; a missed deadline has none.
    pub fn source_message(&self) -> (res: Option<String>)
        ensures
            match application_source(self@) {
                Some(s) => res is Some && res->0@ == s,
                None => res is None,
            },
    {
        match self {
            ApplicationError::Configuration(e) => Some(e.message()),
            ApplicationError::Bind { cause, .. } => Some(cause.clone()),
            ApplicationError::Signal { cause } => Some(cause.clone()),
            ApplicationError::ShutdownDeadline { .. } => None,
            ApplicationError::Serve { cause } => Some(cause.clone()),
        }
    }
}

} // verus!
