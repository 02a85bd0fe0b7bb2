use mysqldesk::error::AppError;
use mysqldesk::phpmyadmin::detector::{PmaQuery, PmaStage};
use mysqldesk::phpmyadmin::{LaunchPlan, PhpMyAdminDetector, PhpMyAdminInfo};
use mysqldesk::phpmyadmin::launcher::ServerToggle;
use mysqldesk::system::process::{CommandOutput, Observation, Probe, Step};

fn stdout(text: &str) -> Observation {
    Observation::Command(Ok(CommandOutput { success: true, code: Some(0), stdout: text.as_bytes().to_vec(), stderr: vec![] }))
}

fn drive(mut step: Step<PmaQuery, PhpMyAdminInfo>, answers: Vec<Observation>) -> PhpMyAdminInfo {
    let mut answers = answers.into_iter();
    loop {
        match step {
            Step::Done(info) => return info,
            Step::Need(q, _) => {
                let obs = answers.next().expect("script too short");
                step = PhpMyAdminDetector::detect_advance(q, &obs);
            }
        }
    }
}

#[test]
fn php_and_phpmyadmin_found() {
    let local = "/home/u/.local/share/mysqldesk/phpmyadmin".to_string();
    let start = PhpMyAdminDetector::detect_start(Some("/opt/php"), None, true, &local);
    match &start {
        Step::Need(q, Probe::Run(req)) => {
            assert_eq!(q.stage, PmaStage::PhpVersion);
            assert_eq!(req.program, "/opt/php");
            assert_eq!(req.args, vec!["--version"]);
            assert_eq!(q.candidates.len(), 4);
        }
        _ => panic!("expected php --version"),
    }
    let info = drive(
        start,
        vec![
            stdout("PHP 8.3.6 (cli) (built: Apr 15 2024)\nCopyright (c) The PHP Group\n"),
            stdout("[PHP Modules]\nmbstring\njson\n"),
            Observation::Exists(vec![false, true, true, false]),
            Observation::Listing(Some(vec!["index.php".to_string(), "RELEASE-DATE-5.2.1".to_string()])),
        ],
    );
    assert!(info.php_installed);
    assert_eq!(info.php_version, "PHP 8.3.6 (cli) (built: Apr 15 2024)");
    assert!(!info.php_extensions_ok);
    assert_eq!(info.missing_extensions, vec!["mysqli".to_string(), "session".to_string()]);
    assert!(info.pma_installed);
    assert_eq!(info.pma_path, Some("/usr/share/phpmyadmin".to_string()));
    assert_eq!(info.pma_version, Some("5.2.1".to_string()));
}

#[test]
fn version_from_package_json_or_default() {
    let local = "/x".to_string();
    let start = PhpMyAdminDetector::detect_start(None, Some("/srv/pma"), false, &local);
    match &start {
        Step::Need(q, Probe::PathsExist(paths)) => {
            assert_eq!(q.stage, PmaStage::Directories);
            assert_eq!(paths[0], "/srv/pma/index.php");
            assert_eq!(paths[1], "/x/index.php");
        }
        _ => panic!("expected the directory probe"),
    }
    let pkg = "{\n  \"name\": \"phpmyadmin\",\n  \"version\": \"5.2.2\",\n}";
    let info = drive(
        start,
        vec![Observation::Exists(vec![true]), Observation::Listing(None), Observation::Contents(Some(pkg.to_string()))],
    );
    assert!(!info.php_installed);
    assert_eq!(info.php_version, "Not installed");
    assert_eq!(info.pma_path, Some("/srv/pma".to_string()));
    assert_eq!(info.pma_version, Some("5.2.2".to_string()));

    let start = PhpMyAdminDetector::detect_start(None, None, false, &local);
    let info = drive(
        start,
        vec![Observation::Exists(vec![false, false, false, true]), Observation::Listing(Some(vec![])), Observation::Contents(None)],
    );
    assert_eq!(info.pma_path, Some("/var/www/phpmyadmin".to_string()));
    assert_eq!(info.pma_version, Some("5.x".to_string()));

    let start = PhpMyAdminDetector::detect_start(None, None, false, &local);
    let info = drive(start, vec![Observation::Exists(vec![false; 4])]);
    assert!(!info.pma_installed);
    assert_eq!(info.pma_path, None);
}

#[test]
fn local_directory() {
    assert_eq!(
        PhpMyAdminDetector::local_pma_dir(Some("/home/u/.local/share".to_string())),
        "/home/u/.local/share/mysqldesk/phpmyadmin"
    );
    assert_eq!(PhpMyAdminDetector::local_pma_dir(None), "./mysqldesk/phpmyadmin");
    assert!(PhpMyAdminDetector::default_local_pma_dir().ends_with("mysqldesk/phpmyadmin"));
}

#[test]
fn launch_plan() {
    assert_eq!(LaunchPlan::bind_target("  ", 8080), "127.0.0.1:8080");
    assert_eq!(LaunchPlan::bind_target(" localhost ", 8081), "127.0.0.1:8081");
    assert_eq!(LaunchPlan::bind_target("0.0.0.0", 80), "127.0.0.1:80");
    let req = LaunchPlan::server_command("php", "/srv/pma", "127.0.0.1", 8080);
    assert_eq!(req.program, "php");
    assert_eq!(req.args, vec!["-S", "127.0.0.1:8080", "-t", "/srv/pma"]);
    assert_eq!(LaunchPlan::browser_url("127.0.0.1", 8888), "http://127.0.0.1:8888");
    match LaunchPlan::launch_error("No such file") {
        AppError::PhpMyAdminLaunchFailed(m) => assert_eq!(m, "Gagal mengeksekusi PHP server: No such file"),
        other => panic!("unexpected {:?}", other),
    }
    match LaunchPlan::browser_error("x") {
        AppError::NetworkError(m) => assert_eq!(m, "Gagal membuka browser: x"),
        other => panic!("unexpected {:?}", other),
    }
}

#[test]
fn server_button_decisions() {
    assert!(matches!(
        LaunchPlan::server_toggle(false, true, None, None, "127.0.0.1", 8080),
        ServerToggle::NotInstalled
    ));
    assert!(matches!(
        LaunchPlan::server_toggle(true, true, None, Some("/usr/share/phpmyadmin"), "127.0.0.1", 8080),
        ServerToggle::Stop
    ));
    match LaunchPlan::server_toggle(true, false, None, Some("/usr/share/phpmyadmin"), "localhost", 8080) {
        ServerToggle::Start(req) => {
            assert_eq!(req.program, "php");
            assert_eq!(req.args, vec!["-S", "127.0.0.1:8080", "-t", "/usr/share/phpmyadmin"]);
        }
        other => panic!("unexpected {:?}", other),
    }
    match LaunchPlan::server_toggle(true, false, Some("/opt/php/bin/php"), None, "192.168.1.5", 9000) {
        ServerToggle::Start(req) => {
            assert_eq!(req.program, "/opt/php/bin/php");
            assert_eq!(req.args, vec!["-S", "127.0.0.1:9000", "-t", ""]);
        }
        other => panic!("unexpected {:?}", other),
    }
}
