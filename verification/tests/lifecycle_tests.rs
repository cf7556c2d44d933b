use opensearch_sdk_rs::lifecycle::{ExtensionState, LifecycleManager};

#[test]
fn test_state_transitions() {
    assert!(ExtensionState::Created.can_transition_to(ExtensionState::Initializing));
    assert!(ExtensionState::Initializing.can_transition_to(ExtensionState::Initialized));
    assert!(ExtensionState::Initialized.can_transition_to(ExtensionState::Running));
    assert!(ExtensionState::Running.can_transition_to(ExtensionState::Stopping));
    assert!(ExtensionState::Stopping.can_transition_to(ExtensionState::Stopped));

    assert!(!ExtensionState::Created.can_transition_to(ExtensionState::Running));
    assert!(!ExtensionState::Stopped.can_transition_to(ExtensionState::Running));
}

#[test]
fn test_lifecycle_manager() {
    let mut manager = LifecycleManager::new();

    assert_eq!(manager.current_state(), ExtensionState::Created);

    manager.transition_to(ExtensionState::Initializing).unwrap();
    assert_eq!(manager.current_state(), ExtensionState::Initializing);

    manager.transition_to(ExtensionState::Initialized).unwrap();
    assert_eq!(manager.current_state(), ExtensionState::Initialized);

    let result = manager.transition_to(ExtensionState::Created);
    assert!(result.is_err());
}

#[test]
fn test_invalid_transition_reports_both_states() {
    let mut manager = LifecycleManager::new();
    let err = manager.transition_to(ExtensionState::Running).unwrap_err();
    assert_eq!(
        err.message(),
        "Initialization failed: Invalid state transition from Created to Running"
    );
    // the rejected transition left the state unchanged
    assert_eq!(manager.current_state(), ExtensionState::Created);
}

#[test]
fn test_every_valid_pair_commits_and_every_other_pair_is_rejected() {
    let all = [
        ExtensionState::Created,
        ExtensionState::Initializing,
        ExtensionState::Initialized,
        ExtensionState::Running,
        ExtensionState::Stopping,
        ExtensionState::Stopped,
        ExtensionState::Failed,
    ];
    for from in all {
        for to in all {
            let mut manager = LifecycleManager { state: from };
            let result = manager.transition_to(to);
            if from.can_transition_to(to) {
                assert!(result.is_ok());
                assert_eq!(manager.current_state(), to);
            } else {
                assert!(result.is_err());
                assert_eq!(manager.current_state(), from);
            }
        }
    }
}

#[test]
fn test_terminal_states() {
    assert!(ExtensionState::Stopped.is_terminal());
    assert!(ExtensionState::Failed.is_terminal());
    assert!(!ExtensionState::Running.is_terminal());
    assert!(ExtensionState::Running.is_running());
    assert!(!ExtensionState::Stopped.is_running());
}

#[test]
fn test_request_shutdown() {
    let mut manager = LifecycleManager::new();
    manager.transition_to(ExtensionState::Initializing).unwrap();
    manager.transition_to(ExtensionState::Initialized).unwrap();
    manager.transition_to(ExtensionState::Running).unwrap();
    manager.request_shutdown().unwrap();
    assert_eq!(manager.current_state(), ExtensionState::Stopping);

    manager.transition_to(ExtensionState::Stopped).unwrap();
    // a terminal manager accepts the request and does nothing
    manager.request_shutdown().unwrap();
    assert_eq!(manager.current_state(), ExtensionState::Stopped);
}
