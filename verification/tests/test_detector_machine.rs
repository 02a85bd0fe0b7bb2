use mysqldesk::database::detector::{BinaryProbes, DetectStage, ServerDefaults};
use mysqldesk::database::{DatabaseDetector, DatabaseInfo, DatabaseType, MariaDbInfo, MySqlInfo};
use mysqldesk::system::process::{CommandOutput, Observation, Probe, Step};

fn stdout(text: &str) -> Observation {
    Observation::Command(Ok(CommandOutput { success: true, code: Some(0), stdout: text.as_bytes().to_vec(), stderr: vec![] }))
}

fn failed() -> Observation {
    Observation::Command(Ok(CommandOutput { success: false, code: Some(1), stdout: vec![], stderr: b"err".to_vec() }))
}

/// Drives a detection, answering probes from a script.
fn drive(mut step: Step<mysqldesk::database::detector::DetectQuery, DatabaseInfo>, answers: Vec<Observation>) -> DatabaseInfo {
    let mut answers = answers.into_iter();
    loop {
        match step {
            Step::Done(info) => return info,
            Step::Need(q, _) => {
                let obs = answers.next().expect("script too short");
                step = DatabaseDetector::detect_advance(q, &obs);
            }
        }
    }
}

#[test]
fn nothing_installed_gives_default() {
    let info = drive(
        DatabaseDetector::detect_start(BinaryProbes { mariadbd: None, mariadb: None, mysqld: None, mysql: None }),
        vec![],
    );
    assert_eq!(info.db_type, DatabaseType::NotInstalled);
    assert_eq!(info.db_type.as_str(), "None");
    assert_eq!(info.version, "Not installed");
    assert_eq!(info.service_name, "mariadb.service");
    assert_eq!(info.port, 3306);
    assert_eq!(info.bind_address, "127.0.0.1");
}

#[test]
fn mariadb_detection_full_run() {
    let start = DatabaseDetector::detect_start(BinaryProbes {
        mariadbd: Some("/usr/sbin/mariadbd".to_string()),
        mariadb: Some("/usr/bin/mariadb".to_string()),
        mysqld: None,
        mysql: None,
    });
    match &start {
        Step::Need(q, Probe::Run(req)) => {
            assert_eq!(q.stage, DetectStage::MariaDbClientVersion);
            assert_eq!(req.program, "mariadb");
            assert_eq!(req.args, vec!["--version"]);
        }
        _ => panic!("expected mariadb --version"),
    }
    let help = "Variables (--variable-name=value)\nport 3307\ndatadir /srv/mysql/\nsocket /tmp/m.sock\nbind-address 0.0.0.0\nport 0\n";
    let info = drive(
        start,
        vec![
            failed(),
            stdout("mariadbd  Ver 10.11.8-MariaDB for Linux on x86_64 (MariaDB Server)"),
            stdout(help),
            Observation::Exists(vec![false, true, true, false]),
            failed(),
            stdout("● mysql.service"),
        ],
    );
    assert_eq!(info.db_type, DatabaseType::MariaDB);
    assert_eq!(info.version, "MariaDB 10.11.8");
    assert_eq!(info.executable_path, "/usr/sbin/mariadbd");
    assert_eq!(info.port, 3307);
    assert_eq!(info.data_dir, "/srv/mysql/");
    assert_eq!(info.socket_path, "/tmp/m.sock");
    assert_eq!(info.bind_address, "0.0.0.0");
    assert_eq!(info.config_file, "/etc/mysql/my.cnf");
    assert_eq!(info.service_name, "mysql.service");
}

#[test]
fn mariadb_detection_fallbacks() {
    let start = DatabaseDetector::detect_start(BinaryProbes {
        mariadbd: None,
        mariadb: Some("/usr/bin/mariadb".to_string()),
        mysqld: None,
        mysql: None,
    });
    let info = drive(start, vec![failed(), failed(), failed(), failed(), Observation::Exists(vec![]), failed(), failed()]);
    assert_eq!(info.version, "MariaDB (version unknown)");
    assert_eq!(info.executable_path, "/usr/bin/mariadb");
    assert_eq!(info.port, 3306);
    assert_eq!(info.data_dir, "/var/lib/mysql");
    assert_eq!(info.socket_path, "/run/mysqld/mysqld.sock");
    assert_eq!(info.config_file, "/etc/mysql/mariadb.cnf");
    assert_eq!(info.service_name, "mariadb.service");
}

#[test]
fn mysql_detection() {
    let start = DatabaseDetector::detect_start(BinaryProbes {
        mariadbd: None,
        mariadb: None,
        mysqld: Some("/usr/sbin/mysqld".to_string()),
        mysql: None,
    });
    let info = drive(
        start,
        vec![
            stdout("mysql  Ver 8.0.36-0ubuntu0.24.04.1 for Linux on x86_64 ((Ubuntu))"),
            failed(),
            Observation::Exists(vec![false, false, true]),
        ],
    );
    assert_eq!(info.db_type, DatabaseType::MySQL);
    assert_eq!(info.version, "MySQL 8.0.36-0ubuntu0.24.04.1");
    assert_eq!(info.service_name, "mysql.service");
    assert_eq!(info.config_file, "/etc/my.cnf");
    assert_eq!(info.port, 3306);
}

#[test]
fn mysql_client_of_mariadb_is_not_mysql() {
    let start = DatabaseDetector::detect_start(BinaryProbes {
        mariadbd: None,
        mariadb: None,
        mysqld: None,
        mysql: Some("/usr/bin/mysql".to_string()),
    });
    let info = drive(start, vec![stdout("mysql  Ver 15.1 Distrib 10.5.23-MariaDB")]);
    assert_eq!(info.db_type, DatabaseType::NotInstalled);
}

#[test]
fn extract_defaults_and_config_lookup() {
    let d: ServerDefaults = DatabaseDetector::extract_defaults(&"port\t\t3310\nsocket\n  datadir   /data  extra\n".to_string());
    assert_eq!(d.port, 3310);
    assert_eq!(d.data_dir, "/data");
    assert_eq!(d.socket, "/run/mysqld/mysqld.sock");
    assert_eq!(
        DatabaseDetector::find_config_file(&["/a", "/b", "/c"], &vec![false, true, true]),
        Some("/b".to_string())
    );
    assert_eq!(DatabaseDetector::find_config_file(&["/a", "/b"], &vec![false]), None);
    assert_eq!(MariaDbInfo::primary_config_path(&vec![false, false, true, true]), Some("/etc/my.cnf.d/mariadb-server.cnf"));
    assert_eq!(MySqlInfo::primary_config_path(&vec![]), None);
    assert_eq!(MySqlInfo::DEFAULT_SERVICE, "mysql.service");
    assert_eq!(MariaDbInfo::DEFAULT_PORT, 3306);
    assert_eq!(MariaDbInfo::CONFIG_PATHS.len(), 4);
}
