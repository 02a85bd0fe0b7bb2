use mysqldesk::config::AppSettings;
use mysqldesk::database::detector::{DetectQuery, DetectStage};
use mysqldesk::database::{DatabaseAuth, DatabaseDetector, DatabaseService, DatabaseType};
use mysqldesk::error::AppError;
use mysqldesk::phpmyadmin::detector::PmaStage;
use mysqldesk::phpmyadmin::PhpMyAdminDetector;
use mysqldesk::system::package_manager::{package_manager_advance, SystemPackageManager};
use mysqldesk::system::process::{availability_advance, Observation, Probe, Step};
use mysqldesk::system::service::{ServiceState, StatusStage, SystemdManager};
use mysqldesk::system::{detect_package_manager, PackageManager};

fn resolved(paths: &[Option<&str>]) -> Observation {
    Observation::Resolved(paths.iter().map(|p| p.map(|s| s.to_string())).collect())
}

fn which_names<S: std::fmt::Debug, T: std::fmt::Debug>(step: &Step<S, T>) -> Vec<String> {
    match step {
        Step::Need(_, Probe::Which(names)) => names.clone(),
        other => panic!("expected a lookup, got {:?}", other),
    }
}

#[test]
fn availability_names_the_programs() {
    assert_eq!(which_names(&SystemdManager::is_available()), vec!["systemctl"]);
    assert_eq!(which_names(&SystemPackageManager::Apt.is_available()), vec!["apt", "apt-get"]);
    assert_eq!(which_names(&SystemPackageManager::Dnf.is_available()), vec!["dnf"]);
    assert_eq!(which_names(&SystemPackageManager::Pacman.is_available()), vec!["pacman"]);
    let q = match SystemPackageManager::Apt.is_available() {
        Step::Need(q, _) => q,
        _ => panic!(),
    };
    assert!(matches!(availability_advance(q, &resolved(&[None, Some("/usr/bin/apt-get")])), Step::Done(true)));
    let q = match SystemdManager::is_available() {
        Step::Need(q, _) => q,
        _ => panic!(),
    };
    assert!(matches!(availability_advance(q, &resolved(&[None])), Step::Done(false)));
}

#[test]
fn package_manager_from_lookup() {
    let step = detect_package_manager();
    assert_eq!(which_names(&step), vec!["apt", "dnf", "pacman"]);
    let Step::Need(q, _) = step else { panic!() };
    match package_manager_advance(q, &resolved(&[None, Some("/usr/bin/dnf"), Some("/usr/bin/pacman")])) {
        Step::Done(m) => assert_eq!(m, SystemPackageManager::Dnf),
        _ => panic!(),
    }
}

#[test]
fn status_query_looks_up_systemctl_first() {
    let svc = DatabaseService::new("mariadb.service".to_string());
    let step = svc.get_status();
    assert_eq!(which_names(&step), vec!["systemctl"]);
    let Step::Need(q, _) = step else { panic!() };
    assert_eq!(q.stage, StatusStage::Lookup);
    assert!(matches!(SystemdManager::status_advance(q, &resolved(&[None])), Step::Done(ServiceState::Unknown)));
    let Step::Need(q, _) = SystemdManager::get_status("mariadb.service") else { panic!() };
    match SystemdManager::status_advance(q, &resolved(&[Some("/usr/bin/systemctl")])) {
        Step::Need(q, Probe::Run(req)) => {
            assert_eq!(q.stage, StatusStage::IsActive);
            assert_eq!(req.program, "systemctl");
            assert_eq!(req.args, vec!["is-active", "mariadb.service"]);
        }
        other => panic!("unexpected {:?}", other),
    }
}

#[test]
fn actions_go_through_pkexec_when_found() {
    let svc = DatabaseService::new("mariadb.service".to_string());
    let step = svc.start();
    assert_eq!(which_names(&step), vec!["systemctl", "pkexec"]);
    let Step::Need(q, _) = step else { panic!() };
    match SystemdManager::action_advance(q, &resolved(&[Some("/usr/bin/systemctl"), Some("/usr/bin/pkexec")])) {
        Step::Done(Ok(req)) => {
            assert_eq!(req.program, "pkexec");
            assert_eq!(req.args, vec!["systemctl", "start", "mariadb.service"]);
        }
        other => panic!("unexpected {:?}", other),
    }
    let Step::Need(q, _) = SystemdManager::execute_action("mariadb.service", "stop") else { panic!() };
    match SystemdManager::action_advance(q, &resolved(&[None, Some("/usr/bin/pkexec")])) {
        Step::Done(Err(AppError::ServiceNotFound(m))) => assert_eq!(m, "systemctl tidak ditemukan"),
        other => panic!("unexpected {:?}", other),
    }
}

#[test]
fn root_commands_from_lookup() {
    let step = DatabaseAuth::root_check_command();
    assert_eq!(which_names(&step), vec!["mariadb", "mysql"]);
    let Step::Need(q, _) = step else { panic!() };
    match DatabaseAuth::root_check_advance(q, &resolved(&[None, Some("/usr/bin/mysql")])) {
        Step::Done(Some(req)) => assert_eq!(req.program, "mysql"),
        other => panic!("unexpected {:?}", other),
    }
    let step = DatabaseAuth::setup_root_command();
    assert_eq!(which_names(&step), vec!["mariadb", "mysql", "pkexec"]);
    let Step::Need(q, _) = step else { panic!() };
    match DatabaseAuth::root_setup_advance(q, &resolved(&[Some("/usr/bin/mariadb"), None, Some("/usr/bin/pkexec")])) {
        Step::Done(Ok(req)) => {
            assert_eq!(req.program, "pkexec");
            assert_eq!(req.args[0], "mariadb");
        }
        other => panic!("unexpected {:?}", other),
    }
    let Step::Need(q, _) = DatabaseAuth::setup_root_command() else { panic!() };
    assert!(matches!(
        DatabaseAuth::root_setup_advance(q, &resolved(&[None, None, Some("/usr/bin/pkexec")])),
        Step::Done(Err(AppError::DatabaseNotInstalled))
    ));
}

#[test]
fn detection_starts_from_the_lookup() {
    let step = DatabaseDetector::detect();
    assert_eq!(which_names(&step), vec!["mariadbd", "mariadb", "mysqld", "mysql"]);
    let Step::Need(q, _) = step else { panic!() };
    assert_eq!(q.stage, DetectStage::Binaries);
    match DatabaseDetector::detect_advance(q, &resolved(&[None, Some("/usr/bin/mariadb"), Some("/usr/sbin/mysqld"), None])) {
        Step::Need(DetectQuery { stage, info }, Probe::Run(req)) => {
            assert_eq!(stage, DetectStage::MariaDbClientVersion);
            assert_eq!(info.db_type, DatabaseType::MariaDB);
            assert_eq!(info.executable_path, "/usr/bin/mariadb");
            assert_eq!(req.program, "mariadb");
        }
        other => panic!("unexpected {:?}", other),
    }
    let Step::Need(q, _) = DatabaseDetector::detect() else { panic!() };
    match DatabaseDetector::detect_advance(q, &resolved(&[None, None, None, None])) {
        Step::Done(info) => assert_eq!(info.db_type, DatabaseType::NotInstalled),
        other => panic!("unexpected {:?}", other),
    }
}

#[test]
fn php_detection_looks_up_the_configured_program() {
    let step = PhpMyAdminDetector::detect(Some("/opt/php8/bin/php"), None);
    assert_eq!(which_names(&step), vec!["/opt/php8/bin/php"]);
    let Step::Need(q, _) = PhpMyAdminDetector::detect(None, Some("/srv/pma")) else { panic!() };
    assert_eq!(q.stage, PmaStage::PhpLookup);
    assert_eq!(q.php_bin, "php");
    assert_eq!(q.candidates[0], "/srv/pma");
    match PhpMyAdminDetector::detect_advance(q, &resolved(&[Some("/usr/bin/php")])) {
        Step::Need(q, Probe::Run(req)) => {
            assert_eq!(q.stage, PmaStage::PhpVersion);
            assert!(q.info.php_installed);
            assert_eq!(req.program, "php");
            assert_eq!(req.args, vec!["--version"]);
        }
        other => panic!("unexpected {:?}", other),
    }
    let Step::Need(q, _) = PhpMyAdminDetector::detect(None, None) else { panic!() };
    match PhpMyAdminDetector::detect_advance(q, &resolved(&[None])) {
        Step::Need(q, Probe::PathsExist(paths)) => {
            assert_eq!(q.stage, PmaStage::Directories);
            assert!(!q.info.php_installed);
            assert_eq!(paths[1], "/usr/share/phpmyadmin/index.php");
        }
        other => panic!("unexpected {:?}", other),
    }
}

#[test]
fn badge_classes_are_lowercase_names() {
    for state in [
        ServiceState::Running,
        ServiceState::Stopped,
        ServiceState::Starting,
        ServiceState::Stopping,
        ServiceState::Error,
        ServiceState::Unknown,
    ] {
        assert_eq!(state.badge_class(), format!("status-{}", state.as_str().to_lowercase()));
    }
}

#[test]
fn settings_form_is_applied() {
    let mut s = AppSettings::default();
    s.custom_pma_path = Some("/srv/pma".to_string());
    let unchanged = s.theme_index();
    s.apply_form(unchanged, 3307, 8888, "127.0.0.1".to_string(), 5, "  /usr/bin/php8 ");
    assert_eq!(s.theme, "system");
    assert_eq!(s.db_port, 3307);
    assert_eq!(s.phpmyadmin_port, 8888);
    assert_eq!(s.auto_refresh_interval_secs, 5);
    assert_eq!(s.custom_php_path, Some("/usr/bin/php8".to_string()));
    assert_eq!(s.custom_pma_path, Some("/srv/pma".to_string()));
    s.apply_form(1, 3306, 8080, "localhost".to_string(), 3, "   ");
    assert_eq!(s.theme, "dark");
    assert_eq!(s.custom_php_path, None);
    s.apply_form(7, 3306, 8080, "localhost".to_string(), 3, "");
    assert_eq!(s.theme, "system");
}
