use mysqldesk::system::service::{ServiceState, SystemdManager};

#[test]
fn test_systemd_status_parsing_running() {
    let state = SystemdManager::parse_state("active", "running");
    assert_eq!(state, ServiceState::Running);
}

#[test]
fn test_systemd_status_parsing_stopped() {
    let state = SystemdManager::parse_state("inactive", "dead");
    assert_eq!(state, ServiceState::Stopped);
}

#[test]
fn test_systemd_status_parsing_activating() {
    let state = SystemdManager::parse_state("activating", "start-pre");
    assert_eq!(state, ServiceState::Starting);
}

#[test]
fn test_systemd_status_parsing_deactivating() {
    let state = SystemdManager::parse_state("deactivating", "stop-sigterm");
    assert_eq!(state, ServiceState::Stopping);
}

#[test]
fn test_systemd_status_parsing_failed() {
    let state = SystemdManager::parse_state("failed", "failed");
    assert_eq!(state, ServiceState::Error);
}

#[test]
fn test_systemd_status_parsing_unknown() {
    let state = SystemdManager::parse_state("invalid", "state");
    assert_eq!(state, ServiceState::Unknown);
}

#[test]
fn systemd_status_parsing_trims_and_reloading() {
    assert_eq!(SystemdManager::parse_state("  active\n", " reloading "), ServiceState::Starting);
    assert_eq!(SystemdManager::parse_state("active", "exited"), ServiceState::Running);
    assert_eq!(SystemdManager::parse_state("", ""), ServiceState::Unknown);
}

#[test]
fn state_names_and_badges() {
    assert_eq!(ServiceState::Stopping.as_str(), "Stopping");
    assert_eq!(ServiceState::Error.badge_class(), "status-error");
    assert_eq!(ServiceState::Unknown.badge_class(), "status-unknown");
}
