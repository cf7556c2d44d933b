//! The extension runner's decision core: which step of the run sequence
//! comes next after each outside event, which lifecycle transitions commit,
//! and what each accepted connection is answered. The runner's I/O — the
//! listener, the registration exchange, signals, the extension's own
//! asynchronous callbacks — is driven outside the library, which is handed
//! the outcome of each step as an event.

use vstd::prelude::*;
use vstd::utf8::encode_utf8;
use crate::context::ExtensionContext;
use crate::error::ExtensionError;
use crate::lifecycle::{ExtensionState, LifecycleManager, spec_invalid_transition_message};
use crate::text::{lemma_encode_utf8_len_bound, spec_dec, u64_to_string};

verus! {

/// Where the runner stands in its run sequence.
#[derive(Debug, Clone, Copy, PartialEq, Eq, Structural)]
pub enum RunnerPhase {
    Ready,
    Initializing,
    Registering,
    Binding,
    Serving,
    Stopping,
    Finished,
}

/// The outcome of the step the runner last ordered.
#[derive(Debug)]
pub enum RunnerEvent {
    Start,
    InitializeOk,
    InitializeFailed(ExtensionError),
    RegistrationFinished,
    BindOk,
    BindFailed(String),
    ServerLoopFailed,
    ServerLoopEnded,
    ShutdownSignal,
    ExtensionShutdownOk,
    ExtensionShutdownFailed(ExtensionError),
}

/// What the driver must do next.
#[derive(Debug)]
pub enum RunnerAction {
    Initialize,
    Register,
    Bind,
    Serve,
    ShutdownExtension,
    Finish(Result<(), ExtensionError>),
}

/// Which events may arrive in which phase: each phase waits for the outcome
/// of exactly the step it ordered.
pub open spec fn event_fits(phase: RunnerPhase, event: RunnerEvent) -> bool {
    match (phase, event) {
        (RunnerPhase::Ready, RunnerEvent::Start) => true,
        (RunnerPhase::Initializing, RunnerEvent::InitializeOk) => true,
        (RunnerPhase::Initializing, RunnerEvent::InitializeFailed(_)) => true,
        (RunnerPhase::Registering, RunnerEvent::RegistrationFinished) => true,
        (RunnerPhase::Binding, RunnerEvent::BindOk) => true,
        (RunnerPhase::Binding, RunnerEvent::BindFailed(_)) => true,
        (RunnerPhase::Serving, RunnerEvent::ServerLoopFailed) => true,
        (RunnerPhase::Serving, RunnerEvent::ServerLoopEnded) => true,
        (RunnerPhase::Serving, RunnerEvent::ShutdownSignal) => true,
        (RunnerPhase::Stopping, RunnerEvent::ExtensionShutdownOk) => true,
        (RunnerPhase::Stopping, RunnerEvent::ExtensionShutdownFailed(_)) => true,
        _ => false,
    }
}

/// The message reported when the listener cannot be bound.
pub open spec fn spec_bind_failure_message(port: u16, reason: Seq<char>) -> Seq<char> {
    "Failed to bind to port "@ + spec_dec(port as nat) + ": "@ + reason
}

/// The top-level orchestrator's verified core: the lifecycle it owns, the
/// phase it has reached, and the port it serves. The extension instance,
/// the context's scheduler and the sockets live with the driver.
#[derive(Debug)]
pub struct ExtensionRunner {
    pub context: ExtensionContext,
    pub lifecycle: LifecycleManager,
    pub phase: RunnerPhase,
    pub port: u16,
}

impl ExtensionRunner {
    /// A runner that has not started: lifecycle in `Created`, waiting for
    /// `Start`.
    pub fn new(context: ExtensionContext, port: u16) -> (r: Result<Self, ExtensionError>)
        ensures
            r matches Ok(runner) && runner.context == context && runner.port == port
                && runner.lifecycle.state == ExtensionState::Created && runner.phase
                == RunnerPhase::Ready,
    {
        Ok(
            ExtensionRunner {
                context,
                lifecycle: LifecycleManager::new(),
                phase: RunnerPhase::Ready,
                port,
            },
        )
    }

    /// One step of the run sequence. Starting moves the lifecycle to
    /// `Initializing` and orders the extension's initialize callback; a
    /// failed initialize aborts with its error, leaving the lifecycle
    /// non-terminal at `Initializing`. A completed initialize commits
    /// `Initialized` and orders the best-effort registration, whose outcome
    /// never aborts the sequence. The runner then commits `Running`, binds
    /// and serves. A server error escapes to `Failed` and aborts with the
    /// transition error that `Failed -> Stopping` reports; an orderly
    /// shutdown commits `Stopping`, orders the extension's shutdown
    /// callback and, once that returns, commits `Stopped`. Every rejected
    /// lifecycle transition aborts the sequence with that rejection.
    pub fn on_event(&mut self, event: RunnerEvent) -> (a: RunnerAction)
        requires
            event_fits(old(self).phase, event),
        ensures
            final(self).port == old(self).port,
            final(self).context == old(self).context,
            event matches RunnerEvent::Start ==> step_starts(*old(self), *final(self), a),
            event matches RunnerEvent::InitializeOk ==> step_commits(
                *old(self),
                *final(self),
                a,
                ExtensionState::Initialized,
                RunnerPhase::Registering,
                RunnerAction::Register,
            ),
            event matches RunnerEvent::InitializeFailed(e) ==> final(self).lifecycle == old(
                self,
            ).lifecycle && final(self).phase == RunnerPhase::Finished && a == RunnerAction::Finish(
                Err(e),
            ),
            event matches RunnerEvent::RegistrationFinished ==> step_commits(
                *old(self),
                *final(self),
                a,
                ExtensionState::Running,
                RunnerPhase::Binding,
                RunnerAction::Bind,
            ),
            event matches RunnerEvent::BindOk ==> final(self).lifecycle == old(self).lifecycle
                && final(self).phase == RunnerPhase::Serving && a matches RunnerAction::Serve,
            event matches RunnerEvent::BindFailed(reason) ==> final(self).lifecycle == old(
                self,
            ).lifecycle && final(self).phase == RunnerPhase::Finished && (a matches
                RunnerAction::Finish(r) && r matches Err(e) && e matches
                ExtensionError::InitializationError(m) && m@ == spec_bind_failure_message(
                old(self).port,
                reason@,
            )),
            event matches RunnerEvent::ServerLoopFailed ==> step_fails_over(
                *old(self),
                *final(self),
                a,
            ),
            event matches RunnerEvent::ServerLoopEnded ==> step_begins_shutdown(
                *old(self),
                *final(self),
                a,
            ),
            event matches RunnerEvent::ShutdownSignal ==> step_begins_shutdown(
                *old(self),
                *final(self),
                a,
            ),
            event matches RunnerEvent::ExtensionShutdownOk ==> step_finishes(
                *old(self),
                *final(self),
                a,
            ),
            event matches RunnerEvent::ExtensionShutdownFailed(e) ==> final(self).lifecycle == old(
                self,
            ).lifecycle && final(self).phase == RunnerPhase::Finished && a == RunnerAction::Finish(
                Err(e),
            ),
    {
        match event {
            RunnerEvent::Start => {
                match self.lifecycle.transition_to(ExtensionState::Initializing) {
                    Ok(()) => {
                        self.phase = RunnerPhase::Initializing;
                        RunnerAction::Initialize
                    },
                    Err(e) => {
                        self.phase = RunnerPhase::Finished;
                        RunnerAction::Finish(Err(e))
                    },
                }
            },
            RunnerEvent::InitializeOk => {
                match self.lifecycle.transition_to(ExtensionState::Initialized) {
                    Ok(()) => {
                        self.phase = RunnerPhase::Registering;
                        RunnerAction::Register
                    },
                    Err(e) => {
                        self.phase = RunnerPhase::Finished;
                        RunnerAction::Finish(Err(e))
                    },
                }
            },
            RunnerEvent::InitializeFailed(e) => {
                self.phase = RunnerPhase::Finished;
                RunnerAction::Finish(Err(e))
            },
            RunnerEvent::RegistrationFinished => {
                match self.lifecycle.transition_to(ExtensionState::Running) {
                    Ok(()) => {
                        self.phase = RunnerPhase::Binding;
                        RunnerAction::Bind
                    },
                    Err(e) => {
                        self.phase = RunnerPhase::Finished;
                        RunnerAction::Finish(Err(e))
                    },
                }
            },
            RunnerEvent::BindOk => {
                self.phase = RunnerPhase::Serving;
                RunnerAction::Serve
            },
            RunnerEvent::BindFailed(reason) => {
                self.phase = RunnerPhase::Finished;
                let m = String::from_str("Failed to bind to port ").concat(
                    u64_to_string(self.port as u64).as_str(),
                ).concat(": ").concat(reason.as_str());
                RunnerAction::Finish(Err(ExtensionError::InitializationError(m)))
            },
            RunnerEvent::ServerLoopFailed => {
                match self.lifecycle.transition_to(ExtensionState::Failed) {
                    Ok(()) => {
                        match self.lifecycle.transition_to(ExtensionState::Stopping) {
                            Ok(()) => {
                                proof {
                                    assert(false);
                                }
                                self.phase = RunnerPhase::Finished;
                                RunnerAction::Finish(Ok(()))
                            },
                            Err(e) => {
                                self.phase = RunnerPhase::Finished;
                                RunnerAction::Finish(Err(e))
                            },
                        }
                    },
                    Err(e) => {
                        self.phase = RunnerPhase::Finished;
                        RunnerAction::Finish(Err(e))
                    },
                }
            },
            RunnerEvent::ServerLoopEnded => self.begin_shutdown(),
            RunnerEvent::ShutdownSignal => self.begin_shutdown(),
            RunnerEvent::ExtensionShutdownOk => {
                match self.lifecycle.transition_to(ExtensionState::Stopped) {
                    Ok(()) => {
                        self.phase = RunnerPhase::Finished;
                        RunnerAction::Finish(Ok(()))
                    },
                    Err(e) => {
                        self.phase = RunnerPhase::Finished;
                        RunnerAction::Finish(Err(e))
                    },
                }
            },
            RunnerEvent::ExtensionShutdownFailed(e) => {
                self.phase = RunnerPhase::Finished;
                RunnerAction::Finish(Err(e))
            },
        }
    }

    /// The orderly-shutdown step shared by the shutdown signal and a served
    /// loop that observed a non-running lifecycle.
    fn begin_shutdown(&mut self) -> (a: RunnerAction)
        ensures
            final(self).port == old(self).port,
            final(self).context == old(self).context,
            step_begins_shutdown(*old(self), *final(self), a),
    {
        match self.lifecycle.transition_to(ExtensionState::Stopping) {
            Ok(()) => {
                self.phase = RunnerPhase::Stopping;
                RunnerAction::ShutdownExtension
            },
            Err(e) => {
                self.phase = RunnerPhase::Finished;
                RunnerAction::Finish(Err(e))
            },
        }
    }
}

/// Starting commits `Initializing` and orders the initialize callback, or
/// aborts with the transition rejection.
pub open spec fn step_starts(
    pre: ExtensionRunner,
    post: ExtensionRunner,
    a: RunnerAction,
) -> bool {
    if pre.lifecycle.state.spec_can_transition_to(ExtensionState::Initializing) {
        &&& post.lifecycle.state == ExtensionState::Initializing
        &&& post.phase == RunnerPhase::Initializing
        &&& a matches RunnerAction::Initialize
    } else {
        &&& post.lifecycle == pre.lifecycle
        &&& post.phase == RunnerPhase::Finished
        &&& a matches RunnerAction::Finish(r) && r matches Err(e) && e matches
            ExtensionError::InitializationError(m) && m@ == spec_invalid_transition_message(
            pre.lifecycle.state,
            ExtensionState::Initializing,
        )
    }
}

/// A step that commits `target` and moves on, or aborts with the rejection.
pub open spec fn step_commits(
    pre: ExtensionRunner,
    post: ExtensionRunner,
    a: RunnerAction,
    target: ExtensionState,
    next_phase: RunnerPhase,
    next_action: RunnerAction,
) -> bool {
    if pre.lifecycle.state.spec_can_transition_to(target) {
        &&& post.lifecycle.state == target
        &&& post.phase == next_phase
        &&& a == next_action
    } else {
        &&& post.lifecycle == pre.lifecycle
        &&& post.phase == RunnerPhase::Finished
        &&& a matches RunnerAction::Finish(r) && r matches Err(e) && e matches
            ExtensionError::InitializationError(m) && m@ == spec_invalid_transition_message(
            pre.lifecycle.state,
            target,
        )
    }
}

/// A server error escapes to `Failed` and then aborts with the rejection
/// that `Failed -> Stopping` reports; when even the escape is rejected, the
/// sequence aborts with that rejection instead.
pub open spec fn step_fails_over(
    pre: ExtensionRunner,
    post: ExtensionRunner,
    a: RunnerAction,
) -> bool {
    if pre.lifecycle.state.spec_can_transition_to(ExtensionState::Failed) {
        &&& post.lifecycle.state == ExtensionState::Failed
        &&& post.phase == RunnerPhase::Finished
        &&& a matches RunnerAction::Finish(r) && r matches Err(e) && e matches
            ExtensionError::InitializationError(m) && m@ == spec_invalid_transition_message(
            ExtensionState::Failed,
            ExtensionState::Stopping,
        )
    } else {
        &&& post.lifecycle == pre.lifecycle
        &&& post.phase == RunnerPhase::Finished
        &&& a matches RunnerAction::Finish(r) && r matches Err(e) && e matches
            ExtensionError::InitializationError(m) && m@ == spec_invalid_transition_message(
            pre.lifecycle.state,
            ExtensionState::Failed,
        )
    }
}

/// Orderly shutdown commits `Stopping` and orders the extension's shutdown
/// callback, or aborts with the rejection.
pub open spec fn step_begins_shutdown(
    pre: ExtensionRunner,
    post: ExtensionRunner,
    a: RunnerAction,
) -> bool {
    if pre.lifecycle.state.spec_can_transition_to(ExtensionState::Stopping) {
        &&& post.lifecycle.state == ExtensionState::Stopping
        &&& post.phase == RunnerPhase::Stopping
        &&& a matches RunnerAction::ShutdownExtension
    } else {
        &&& post.lifecycle == pre.lifecycle
        &&& post.phase == RunnerPhase::Finished
        &&& a matches RunnerAction::Finish(r) && r matches Err(e) && e matches
            ExtensionError::InitializationError(m) && m@ == spec_invalid_transition_message(
            pre.lifecycle.state,
            ExtensionState::Stopping,
        )
    }
}

/// The last step commits `Stopped` and reports success, or aborts with the
/// rejection.
pub open spec fn step_finishes(
    pre: ExtensionRunner,
    post: ExtensionRunner,
    a: RunnerAction,
) -> bool {
    if pre.lifecycle.state.spec_can_transition_to(ExtensionState::Stopped) {
        &&& post.lifecycle.state == ExtensionState::Stopped
        &&& post.phase == RunnerPhase::Finished
        &&& a matches RunnerAction::Finish(r) && r is Ok
    } else {
        &&& post.lifecycle == pre.lifecycle
        &&& post.phase == RunnerPhase::Finished
        &&& a matches RunnerAction::Finish(r) && r matches Err(e) && e matches
            ExtensionError::InitializationError(m) && m@ == spec_invalid_transition_message(
            pre.lifecycle.state,
            ExtensionState::Stopped,
        )
    }
}

/// What the accept loop does on one iteration: exit once the lifecycle is
/// no longer running, hand an accepted connection to its own task, and
/// treat a failed accept as transient, retrying after a short delay.
#[derive(Debug, Clone, Copy, PartialEq, Eq, Structural)]
pub enum AcceptDecision {
    Exit,
    HandleConnection,
    RetryAfterDelay { delay_millis: u64 },
}

/// Milliseconds waited after a transient accept error.
pub const ACCEPT_RETRY_DELAY_MILLIS: u64 = 100;

pub fn accept_loop_step(state: ExtensionState, accept_ok: bool) -> (d: AcceptDecision)
    ensures
        !state.spec_is_running() ==> d == AcceptDecision::Exit,
        state.spec_is_running() && accept_ok ==> d == AcceptDecision::HandleConnection,
        state.spec_is_running() && !accept_ok ==> d == (AcceptDecision::RetryAfterDelay {
            delay_millis: ACCEPT_RETRY_DELAY_MILLIS,
        }),
{
    if !state.is_running() {
        AcceptDecision::Exit
    } else if accept_ok {
        AcceptDecision::HandleConnection
    } else {
        AcceptDecision::RetryAfterDelay { delay_millis: ACCEPT_RETRY_DELAY_MILLIS }
    }
}

/// The fixed text a per-connection task answers with.
pub open spec fn connection_greeting() -> Seq<char> {
    "Hello from extension"@
}

/// What a per-connection task answers: nothing when the peer sent nothing,
/// and the fixed greeting otherwise.
pub fn connection_reply(bytes_read: usize) -> (r: Option<Vec<u8>>)
    ensures
        bytes_read == 0 ==> r is None,
        bytes_read > 0 ==> (r matches Some(v) && v@ == encode_utf8(connection_greeting())),
{
    if bytes_read == 0 {
        return None;
    }
    let text = "Hello from extension";
    proof {
        reveal_strlit("Hello from extension");
        lemma_encode_utf8_len_bound(text@);
    }
    Some(text.as_bytes_vec())
}

} // verus!
