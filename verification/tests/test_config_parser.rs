use mysqldesk::database::DatabaseConfig;
use mysqldesk::system::detect_package_manager;
use mysqldesk::system::package_manager::{
    select_package_manager, AptPackageManager, DnfPackageManager, PacmanPackageManager, SystemPackageManager,
};
use mysqldesk::system::PackageManager;
use mysqldesk::system::package_manager::package_manager_advance;
use mysqldesk::system::process::{availability_advance, LookupQuery, Observation, Probe, Step};

/// Looks programs up in `$PATH` for a lookup step and finishes it.
fn resolve<T>(step: Step<LookupQuery, T>, advance: fn(LookupQuery, &Observation) -> Step<LookupQuery, T>) -> T {
    match step {
        Step::Done(t) => t,
        Step::Need(q, Probe::Which(names)) => {
            let found = names.iter().map(|n| which::which(n).ok().map(|p| p.to_string_lossy().to_string())).collect();
            match advance(q, &Observation::Resolved(found)) {
                Step::Done(t) => t,
                Step::Need(..) => panic!("a lookup takes one step"),
            }
        }
        Step::Need(..) => panic!("expected a lookup"),
    }
}

#[test]
fn test_parse_port_from_my_cnf() {
    let sample_cnf = r#"
[client]
port = 3306
socket = /run/mysqld/mysqld.sock

[mysqld]
user = mysql
port = 3308
bind-address = 127.0.0.1
"#;

    let port = DatabaseConfig::parse_port_from_content(sample_cnf);
    assert_eq!(port, Some(3306)); // first found or parsed
}

#[test]
fn test_package_manager_detection() {
    let pm = resolve(detect_package_manager(), package_manager_advance);
    assert!(resolve(pm.is_available(), availability_advance));
    assert!(!pm.name().is_empty());
    assert!(!pm.mariadb_package_name().is_empty());
}

#[test]
fn parse_port_skips_comments_and_bad_values() {
    let cnf = "# port = 1111\n; port = 2222\n  PORT=abc\nPort = 70000\n\tpOrT =  +3310 \r\nport=3311\n";
    assert_eq!(DatabaseConfig::parse_port_from_content(cnf), Some(3310));
    assert_eq!(DatabaseConfig::parse_port_from_content(""), None);
    assert_eq!(DatabaseConfig::parse_port_from_content("port\nport =\nports = 1"), None);
    assert_eq!(DatabaseConfig::parse_port_from_content("port = 0065535"), Some(65535));
    assert_eq!(DatabaseConfig::parse_port_from_content("port = -1\nport = 1 2"), None);
}

#[test]
fn package_manager_selection_order() {
    assert_eq!(select_package_manager(true, true, true), SystemPackageManager::Apt);
    assert_eq!(select_package_manager(false, true, true), SystemPackageManager::Dnf);
    assert_eq!(select_package_manager(false, false, true), SystemPackageManager::Pacman);
    assert_eq!(select_package_manager(false, false, false), SystemPackageManager::Apt);
}

#[test]
fn package_manager_install_commands() {
    assert_eq!(
        AptPackageManager.install_command(&["mariadb-server", "php-cli"]),
        "sudo apt update && sudo apt install -y mariadb-server php-cli"
    );
    assert_eq!(DnfPackageManager.install_command(&["a"]), "sudo dnf install -y a");
    assert_eq!(PacmanPackageManager.install_command(&[]), "sudo pacman -S --noconfirm ");
    assert_eq!(PacmanPackageManager.php_package_names(), vec!["php", "php-embed"]);
    assert_eq!(DnfPackageManager.mysql_package_name(), "community-mysql-server");
    assert_eq!(SystemPackageManager::Pacman.mariadb_package_name(), "mariadb");
    assert_eq!(SystemPackageManager::Dnf.name(), "dnf");
}
