use mysqldesk::database::DatabaseAuth;
use mysqldesk::error::AppError;
use mysqldesk::system::process::{CommandOutput, Observation, Probe, Step};

fn output(success: bool, code: Option<i32>, stdout: &str, stderr: &str) -> CommandOutput {
    CommandOutput { success, code, stdout: stdout.as_bytes().to_vec(), stderr: stderr.as_bytes().to_vec() }
}

#[test]
fn test_database_auth_test_empty_password() {
    // Planning the check and reading a run's outcome never panics.
    let plan = match DatabaseAuth::root_check_command() {
        Step::Need(q, Probe::Which(names)) => {
            let found = names.iter().map(|n| which::which(n).ok().map(|p| p.to_string_lossy().to_string())).collect();
            match DatabaseAuth::root_check_advance(q, &Observation::Resolved(found)) {
                Step::Done(plan) => plan,
                Step::Need(..) => panic!("a lookup takes one step"),
            }
        }
        _ => panic!("expected a lookup"),
    };
    let is_ok = match plan {
        Some(req) => {
            assert!(req.program == "mariadb" || req.program == "mysql");
            DatabaseAuth::test_root_empty_password(&Err("not run".to_string()))
        }
        None => false,
    };
    println!("Database root empty password status: {}", is_ok);
}

#[test]
fn root_check_plan_prefers_mariadb() {
    let req = DatabaseAuth::root_check_plan(true, true).unwrap();
    assert_eq!(req.program, "mariadb");
    assert_eq!(req.args, vec!["-u", "root", "-e", "SELECT 1;"]);
    let req = DatabaseAuth::root_check_plan(false, true).unwrap();
    assert_eq!(req.program, "mysql");
    assert!(DatabaseAuth::root_check_plan(false, false).is_none());
}

#[test]
fn root_check_reads_exit_status() {
    assert!(DatabaseAuth::test_root_empty_password(&Ok(output(true, Some(0), "1\n1\n", ""))));
    assert!(!DatabaseAuth::test_root_empty_password(&Ok(output(false, Some(1), "", "Access denied"))));
    assert!(!DatabaseAuth::test_root_empty_password(&Err("No such file".to_string())));
}

#[test]
fn root_setup_plan_uses_pkexec_when_present() {
    let req = DatabaseAuth::root_setup_plan(true, false, true).unwrap();
    assert_eq!(req.program, "pkexec");
    assert_eq!(req.args.len(), 3);
    assert_eq!(req.args[0], "mariadb");
    assert_eq!(req.args[1], "-e");
    assert!(req.args[2].starts_with("ALTER USER 'root'@'localhost'"));
    let req = DatabaseAuth::root_setup_plan(false, true, false).unwrap();
    assert_eq!(req.program, "mysql");
    assert_eq!(req.args[0], "-e");
    assert!(matches!(DatabaseAuth::root_setup_plan(false, false, true), Err(AppError::DatabaseNotInstalled)));
}

#[test]
fn root_setup_outcomes() {
    assert!(DatabaseAuth::setup_root_empty_password(&Ok(output(true, Some(0), "", ""))).is_ok());
    match DatabaseAuth::setup_root_empty_password(&Ok(output(false, Some(126), "", ""))) {
        Err(AppError::PermissionDenied(m)) => assert_eq!(m, "Otorisasi PolicyKit dibatalkan."),
        other => panic!("unexpected {:?}", other),
    }
    match DatabaseAuth::setup_root_empty_password(&Ok(output(false, Some(1), "", "Request dismissed"))) {
        Err(AppError::PermissionDenied(_)) => {}
        other => panic!("unexpected {:?}", other),
    }
    match DatabaseAuth::setup_root_empty_password(&Ok(output(false, Some(1), "ERROR 1045", "  "))) {
        Err(AppError::ServiceActionFailed { service, action, details }) => {
            assert_eq!(service, "mariadb");
            assert_eq!(action, "setup root empty password");
            assert_eq!(details, "ERROR 1045");
        }
        other => panic!("unexpected {:?}", other),
    }
    match DatabaseAuth::setup_root_empty_password(&Err("boom".to_string())) {
        Err(AppError::IoError(m)) => assert_eq!(m, "boom"),
        other => panic!("unexpected {:?}", other),
    }
}
