use mysqldesk::database::DatabaseService;
use mysqldesk::error::AppError;
use mysqldesk::system::process::{CommandOutput, Observation, Probe, SafeCommand, Step};
use mysqldesk::system::service::{ServiceState, StatusQuery, StatusStage, SystemdManager};

fn output(success: bool, code: Option<i32>, stdout: &str, stderr: &str) -> CommandOutput {
    CommandOutput { success, code, stdout: stdout.as_bytes().to_vec(), stderr: stderr.as_bytes().to_vec() }
}

#[test]
fn status_query_without_systemctl_is_unknown() {
    assert!(matches!(SystemdManager::status_start("mariadb.service", false), Step::Done(ServiceState::Unknown)));
}

#[test]
fn status_query_is_active_then_show() {
    let q = match SystemdManager::status_start("mariadb.service", true) {
        Step::Need(q, Probe::Run(req)) => {
            assert_eq!(req.program, "systemctl");
            assert_eq!(req.args, vec!["is-active", "mariadb.service"]);
            q
        }
        _ => panic!("expected is-active"),
    };
    let active = Observation::Command(Ok(output(true, Some(0), "deactivating\n", "")));
    let q2 = StatusQuery { service_name: q.service_name.clone(), stage: StatusStage::IsActive };
    assert!(matches!(SystemdManager::status_advance(q2, &active), Step::Done(ServiceState::Stopping)));
    // `is-active` exits non-zero for inactive units, so the detailed query follows.
    let inactive = Observation::Command(Ok(output(false, Some(3), "inactive\n", "")));
    let q = match SystemdManager::status_advance(q, &inactive) {
        Step::Need(q, Probe::Run(req)) => {
            assert_eq!(req.args, vec!["show", "mariadb.service", "--property=ActiveState,SubState"]);
            q
        }
        _ => panic!("expected show"),
    };
    let show = Observation::Command(Ok(output(true, Some(0), "ActiveState=inactive\nSubState=dead\n", "")));
    assert!(matches!(SystemdManager::status_advance(q, &show), Step::Done(ServiceState::Stopped)));
}

#[test]
fn show_output_parsing() {
    assert_eq!(SystemdManager::state_from_show(&"SubState=reloading\nActiveState=active".to_string()), ServiceState::Starting);
    assert_eq!(SystemdManager::state_from_show(&"".to_string()), ServiceState::Unknown);
    assert_eq!(SystemdManager::state_from_show(&"ActiveState=failed\nActiveState=activating\n".to_string()), ServiceState::Starting);
    let q = StatusQuery { service_name: "x".to_string(), stage: StatusStage::Show };
    let failed = Observation::Command(Ok(output(false, Some(1), "ActiveState=active", "")));
    assert!(matches!(SystemdManager::status_advance(q, &failed), Step::Done(ServiceState::Unknown)));
}

#[test]
fn action_plans() {
    match SystemdManager::action_plan("mysql.service", "restart", true, true) {
        Ok(req) => {
            assert_eq!(req.program, "pkexec");
            assert_eq!(req.args, vec!["systemctl", "restart", "mysql.service"]);
        }
        Err(e) => panic!("unexpected {:?}", e),
    }
    match SystemdManager::action_plan("mysql.service", "stop", true, false) {
        Ok(req) => {
            assert_eq!(req.program, "systemctl");
            assert_eq!(req.args, vec!["stop", "mysql.service"]);
        }
        Err(e) => panic!("unexpected {:?}", e),
    }
    match SystemdManager::action_plan("mysql.service", "stop", false, true) {
        Err(AppError::ServiceNotFound(m)) => assert_eq!(m, "systemctl tidak ditemukan"),
        other => panic!("unexpected {:?}", other.is_ok()),
    }
}

#[test]
fn action_outcomes() {
    assert!(SystemdManager::action_outcome("a", "start", &Ok(output(true, Some(0), "", ""))).is_ok());
    match SystemdManager::action_outcome("a", "start", &Ok(output(false, Some(127), "", ""))) {
        Err(AppError::PermissionDenied(m)) => assert_eq!(m, "Otorisasi PolicyKit dibatalkan atau ditolak."),
        other => panic!("unexpected {:?}", other),
    }
    match SystemdManager::action_outcome("a", "start", &Ok(output(false, None, "", "Error: request cancelled"))) {
        Err(AppError::PermissionDenied(_)) => {}
        other => panic!("unexpected {:?}", other),
    }
    match SystemdManager::action_outcome("db.service", "start", &Ok(output(false, Some(5), " Unit not found. ", ""))) {
        Err(AppError::ServiceActionFailed { service, action, details }) => {
            assert_eq!((service.as_str(), action.as_str(), details.as_str()), ("db.service", "start", "Unit not found."));
        }
        other => panic!("unexpected {:?}", other),
    }
}

#[test]
fn journal_logs() {
    let req = SystemdManager::get_journal_logs("mariadb.service", 250);
    assert_eq!(req.program, "journalctl");
    assert_eq!(req.args, vec!["-u", "mariadb.service", "-n250", "--no-pager"]);
    assert_eq!(SystemdManager::journal_logs_outcome("s", &Ok(output(false, Some(1), "line\n", "err"))).unwrap(), "line\n");
    assert_eq!(SystemdManager::journal_logs_outcome("s", &Ok(output(true, Some(0), " \n", "warn\n"))).unwrap(), "warn\n");
    assert_eq!(
        SystemdManager::journal_logs_outcome("s", &Ok(output(true, Some(0), "", ""))).unwrap(),
        "Belum ada log journalctl untuk service 's'."
    );
    assert!(matches!(SystemdManager::journal_logs_outcome("s", &Err("e".to_string())), Err(AppError::IoError(_))));
}

#[test]
fn database_service_delegates() {
    let mut svc = DatabaseService::new("mariadb.service".to_string());
    assert_eq!(svc.service_name(), "mariadb.service");
    svc.set_service_name("mysql.service".to_string());
    assert_eq!(svc.service_name(), "mysql.service");
    assert!(svc.is_running(ServiceState::Running));
    assert!(!svc.is_running(ServiceState::Starting));
    let logs = svc.get_logs(10);
    assert_eq!(logs.args, vec!["-u", "mysql.service", "-n10", "--no-pager"]);
    match svc.restart() {
        Step::Need(q, Probe::Which(names)) => {
            assert_eq!(names, vec!["systemctl", "pkexec"]);
            let found = Observation::Resolved(vec![Some("/usr/bin/systemctl".to_string()), None]);
            match SystemdManager::action_advance(q, &found) {
                Step::Done(Ok(req)) => {
                    assert_eq!(req.program, "systemctl");
                    assert_eq!(req.args, vec!["restart", "mysql.service"]);
                }
                other => panic!("unexpected {:?}", other),
            }
        }
        other => panic!("unexpected {:?}", other),
    }
}

#[test]
fn stdout_of_runs() {
    assert_eq!(SafeCommand::run_and_get_stdout(&Ok(output(true, Some(0), "  v1 \n", ""))), Some("v1".to_string()));
    assert_eq!(SafeCommand::run_and_get_stdout(&Ok(output(true, Some(0), " \n\t", ""))), None);
    assert_eq!(SafeCommand::run_and_get_stdout(&Ok(output(false, Some(1), "v1", ""))), None);
    assert_eq!(SafeCommand::run_and_get_stdout(&Err("e".to_string())), None);
}

#[test]
fn invalid_utf8_output_is_decoded_lossily() {
    let out = CommandOutput { success: true, code: Some(0), stdout: vec![b' ', b'o', b'k', 0xff, b'\n'], stderr: vec![] };
    assert_eq!(SafeCommand::run_and_get_stdout(&Ok(out)), Some("ok\u{FFFD}".to_string()));
}
