use mysqldesk::error::AppError;
use mysqldesk::system::port::{PortChecker, PortQuery, PortStage};
use mysqldesk::system::process::{CommandOutput, Observation, Probe, Step};

/// Answers the probes of a conflict check for a port that some process holds:
/// the port probe reports it in use, commands are not runnable.
fn answer(probe: &Probe) -> Observation {
    match probe {
        Probe::PortInUse(_) => Observation::InUse(true),
        _ => Observation::Command(Err("not run in tests".to_string())),
    }
}

fn run_conflict_check(port: u16, running: bool) -> Result<(), AppError> {
    let mut step = PortChecker::check_conflict(port, running);
    loop {
        match step {
            Step::Done(r) => return r,
            Step::Need(q, p) => {
                let obs = answer(&p);
                step = PortChecker::conflict_advance(q, &obs);
            }
        }
    }
}

#[test]
fn test_port_conflict_reporting() {
    // A port held by some listener.
    let port: u16 = 47123;

    // Expected service is NOT running, but port is in use -> conflict error!
    let result = run_conflict_check(port, false);
    assert!(result.is_err());

    // Expected service IS running, so port in use is expected -> Ok
    let result_expected = run_conflict_check(port, true);
    assert!(result_expected.is_ok());
}

fn out(stdout: &str) -> Observation {
    Observation::Command(Ok(CommandOutput { success: true, code: Some(0), stdout: stdout.as_bytes().to_vec(), stderr: vec![] }))
}

#[test]
fn conflict_details_name_the_process() {
    let q = PortQuery { port: 3306, stage: PortStage::Sockets };
    let ss = "Netid State Recv-Q\ntcp LISTEN 0 80 127.0.0.1:33060 *:*\n  tcp LISTEN 0 80 127.0.0.1:3306 *:* users:((\"mariadbd\",pid=7))  \n";
    match PortChecker::conflict_advance(q, &out(ss)) {
        Step::Done(Err(AppError::PortConflict { port, details })) => {
            assert_eq!(port, 3306);
            // ":3306" first occurs on the 33060 line.
            assert_eq!(
                details,
                "Port 3306 aktif, tetapi server database tercatat mati. Kemungkinan proses lain sedang menggunakannya: tcp LISTEN 0 80 127.0.0.1:33060 *:*"
            );
        }
        _ => panic!("expected a conflict"),
    }
}

#[test]
fn conflict_falls_back_to_fuser_then_unknown() {
    let q = PortQuery { port: 8080, stage: PortStage::Sockets };
    let step = PortChecker::conflict_advance(q, &out("nothing here"));
    let q = match step {
        Step::Need(q, Probe::Run(req)) => {
            assert_eq!(req.program, "fuser");
            assert_eq!(req.args, vec!["8080/tcp"]);
            q
        }
        _ => panic!("expected fuser"),
    };
    match PortChecker::conflict_advance(q, &out(" 1234 ")) {
        Step::Done(Err(AppError::PortConflict { details, .. })) => assert!(details.ends_with("PID: 1234")),
        _ => panic!("expected a conflict"),
    }
    let q = PortQuery { port: 8080, stage: PortStage::Fuser };
    match PortChecker::conflict_advance(q, &Observation::Command(Err("x".to_string()))) {
        Step::Done(Err(AppError::PortConflict { details, .. })) => {
            assert!(details.ends_with("Proses tidak dikenal atau memerlukan izin admin untuk melihat PID"))
        }
        _ => panic!("expected a conflict"),
    }
}

#[test]
fn free_port_is_no_conflict() {
    let q = PortQuery { port: 1, stage: PortStage::InUse };
    assert!(matches!(PortChecker::conflict_advance(q, &Observation::InUse(false)), Step::Done(Ok(()))));
    match PortChecker::find_process_on_port(5432) {
        Step::Need(q, Probe::Run(req)) => {
            assert_eq!(req.program, "ss");
            assert_eq!(req.args, vec!["-tulpn"]);
            assert_eq!(q.stage, PortStage::Sockets);
        }
        _ => panic!("expected ss"),
    }
}
