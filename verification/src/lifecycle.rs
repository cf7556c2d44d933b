//! Lifecycle state machine: the authoritative record of an extension
//! process's execution phase, mutated only through validated transitions.

use vstd::prelude::*;
use crate::error::ExtensionError;

verus! {

/// Execution phase of an extension process.
#[derive(Debug, Clone, Copy, PartialEq, Eq, Structural)]
pub enum ExtensionState {
    Created,
    Initializing,
    Initialized,
    Running,
    Stopping,
    Stopped,
    Failed,
}

impl ExtensionState {
    /// The transition table: which next states are allowed from `self`.
    /// Any non-terminal state may escape to `Failed`.
    pub open spec fn spec_can_transition_to(self, next: ExtensionState) -> bool {
        match (self, next) {
            (ExtensionState::Created, ExtensionState::Initializing) => true,
            (ExtensionState::Initializing, ExtensionState::Initialized) => true,
            (ExtensionState::Initializing, ExtensionState::Failed) => true,
            (ExtensionState::Initialized, ExtensionState::Running) => true,
            (ExtensionState::Initialized, ExtensionState::Stopping) => true,
            (ExtensionState::Running, ExtensionState::Stopping) => true,
            (ExtensionState::Stopping, ExtensionState::Stopped) => true,
            (ExtensionState::Stopping, ExtensionState::Failed) => true,
            (ExtensionState::Created, ExtensionState::Failed) => true,
            (ExtensionState::Initialized, ExtensionState::Failed) => true,
            (ExtensionState::Running, ExtensionState::Failed) => true,
            _ => false,
        }
    }

    /// Whether the transition `self -> next` is allowed by the table.
    pub fn can_transition_to(&self, next: ExtensionState) -> (allowed: bool)
        ensures
            allowed == self.spec_can_transition_to(next),
    {
        match (*self, next) {
            (ExtensionState::Created, ExtensionState::Initializing) => true,
            (ExtensionState::Initializing, ExtensionState::Initialized) => true,
            (ExtensionState::Initializing, ExtensionState::Failed) => true,
            (ExtensionState::Initialized, ExtensionState::Running) => true,
            (ExtensionState::Initialized, ExtensionState::Stopping) => true,
            (ExtensionState::Running, ExtensionState::Stopping) => true,
            (ExtensionState::Stopping, ExtensionState::Stopped) => true,
            (ExtensionState::Stopping, ExtensionState::Failed) => true,
            (ExtensionState::Created, ExtensionState::Failed) => true,
            (ExtensionState::Initialized, ExtensionState::Failed) => true,
            (ExtensionState::Running, ExtensionState::Failed) => true,
            _ => false,
        }
    }

    pub open spec fn spec_is_terminal(self) -> bool {
        self == ExtensionState::Stopped || self == ExtensionState::Failed
    }

    /// `Stopped` and `Failed` are the two terminal states.
    pub fn is_terminal(&self) -> (terminal: bool)
        ensures
            terminal == self.spec_is_terminal(),
    {
        matches!(self, ExtensionState::Stopped | ExtensionState::Failed)
    }

    pub open spec fn spec_is_running(self) -> bool {
        self == ExtensionState::Running
    }

    pub fn is_running(&self) -> (running: bool)
        ensures
            running == self.spec_is_running(),
    {
        matches!(self, ExtensionState::Running)
    }
}

/// No state allows a transition out once it is terminal, except that the
/// table's escape hatch to `Failed` applies only to non-terminal states:
/// a terminal state admits no transition at all.
pub proof fn lemma_terminal_states_admit_no_transition(state: ExtensionState, next: ExtensionState)
    requires
        state.spec_is_terminal(),
    ensures
        !state.spec_can_transition_to(next),
{
}

impl ExtensionState {
    /// The display name of the state, as carried in transition errors.
    pub open spec fn spec_state_name(self) -> Seq<char> {
        match self {
            ExtensionState::Created => "Created"@,
            ExtensionState::Initializing => "Initializing"@,
            ExtensionState::Initialized => "Initialized"@,
            ExtensionState::Running => "Running"@,
            ExtensionState::Stopping => "Stopping"@,
            ExtensionState::Stopped => "Stopped"@,
            ExtensionState::Failed => "Failed"@,
        }
    }

    pub fn state_name(&self) -> (r: &'static str)
        ensures
            r@ == self.spec_state_name(),
    {
        match self {
            ExtensionState::Created => "Created",
            ExtensionState::Initializing => "Initializing",
            ExtensionState::Initialized => "Initialized",
            ExtensionState::Running => "Running",
            ExtensionState::Stopping => "Stopping",
            ExtensionState::Stopped => "Stopped",
            ExtensionState::Failed => "Failed",
        }
    }
}

/// The message of the error a rejected transition reports.
pub open spec fn spec_invalid_transition_message(
    from: ExtensionState,
    to: ExtensionState,
) -> Seq<char> {
    "Invalid state transition from "@ + from.spec_state_name() + " to "@ + to.spec_state_name()
}

/// The owner of the extension's execution state. Every change goes through
/// `transition_to`, which validates against the transition table and leaves
/// the state untouched when it refuses. The lock that shares the manager
/// between tasks, and the listeners notified after a commit, live outside
/// the library.
#[derive(Debug)]
pub struct LifecycleManager {
    pub state: ExtensionState,
}

impl LifecycleManager {
    /// A fresh manager in `Created`.
    pub fn new() -> (m: Self)
        ensures
            m.state == ExtensionState::Created,
    {
        LifecycleManager { state: ExtensionState::Created }
    }

    pub fn current_state(&self) -> (s: ExtensionState)
        ensures
            s == self.state,
    {
        self.state
    }

    /// Commits the transition when the table allows it, and otherwise
    /// reports the rejected pair and changes nothing. For every pair the
    /// table allows the call succeeds and the new state is observable; for
    /// every other pair it fails and the state is unchanged.
    pub fn transition_to(&mut self, new_state: ExtensionState) -> (r: Result<(), ExtensionError>)
        ensures
            old(self).state.spec_can_transition_to(new_state) ==> r is Ok && final(self).state
                == new_state,
            !old(self).state.spec_can_transition_to(new_state) ==> (r matches Err(e) && e matches
                ExtensionError::InitializationError(m) && m@ == spec_invalid_transition_message(
                old(self).state,
                new_state,
            )) && final(self).state == old(self).state,
    {
        if !self.state.can_transition_to(new_state) {
            let m = String::from_str("Invalid state transition from ").concat(
                self.state.state_name(),
            ).concat(" to ").concat(new_state.state_name());
            return Err(ExtensionError::InitializationError(m));
        }
        self.state = new_state;
        Ok(())
    }

    pub fn is_running(&self) -> (r: bool)
        ensures
            r == self.state.spec_is_running(),
    {
        self.state.is_running()
    }

    pub fn is_terminal(&self) -> (r: bool)
        ensures
            r == self.state.spec_is_terminal(),
    {
        self.state.is_terminal()
    }

    /// An externally requested shutdown: nothing to do once the state is
    /// terminal; otherwise a validated transition to `Stopping`.
    pub fn request_shutdown(&mut self) -> (r: Result<(), ExtensionError>)
        ensures
            old(self).state.spec_is_terminal() ==> r is Ok && *final(self) == *old(self),
            !old(self).state.spec_is_terminal() ==> {
                &&& old(self).state.spec_can_transition_to(ExtensionState::Stopping) ==> r is Ok
                    && final(self).state == ExtensionState::Stopping
                &&& !old(self).state.spec_can_transition_to(ExtensionState::Stopping) ==> r is Err
                    && final(self).state == old(self).state
            },
    {
        if self.is_terminal() {
            return Ok(());
        }
        self.transition_to(ExtensionState::Stopping)
    }
}

impl Default for LifecycleManager {
    fn default() -> (m: Self)
        ensures
            m.state == ExtensionState::Created,
    {
        LifecycleManager::new()
    }
}

} // verus!
