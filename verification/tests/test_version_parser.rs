use mysqldesk::database::DatabaseDetector;

#[test]
fn test_mariadb_version_parsing_debian_ubuntu() {
    let raw = "mariadb from 11.8.6-MariaDB, client 15.2 for debian-linux-gnu (x86_64) using EditLine wrapper";
    let parsed = DatabaseDetector::parse_version(raw);
    assert_eq!(parsed, Some("MariaDB 11.8.6".to_string()));
}

#[test]
fn test_mariadb_version_parsing_fedora_arch() {
    let raw = "mariadbd  Ver 10.11.8-MariaDB for Linux on x86_64 (MariaDB Server)";
    let parsed = DatabaseDetector::parse_version(raw);
    assert_eq!(parsed, Some("MariaDB 10.11.8".to_string()));
}

#[test]
fn test_mysql_version_parsing() {
    let raw = "mysql  Ver 8.0.36-0ubuntu0.24.04.1 for Linux on x86_64 ((Ubuntu))";
    let parsed = DatabaseDetector::parse_version(raw);
    assert_eq!(parsed, Some("MySQL 8.0.36-0ubuntu0.24.04.1".to_string()));
}

#[test]
fn test_empty_version_parsing() {
    assert_eq!(DatabaseDetector::parse_version(""), None);
}

#[test]
fn version_parsing_fallback_and_variants() {
    assert_eq!(DatabaseDetector::parse_version("mysql Ver 5.7.44,"), Some("MySQL 5.7.44".to_string()));
    assert_eq!(DatabaseDetector::parse_version("Ver 9.1.0"), Some("MySQL 9.1.0".to_string()));
    assert_eq!(
        DatabaseDetector::parse_version("  some server build \nsecond line"),
        Some("some server build".to_string())
    );
    let long = "x".repeat(50);
    assert_eq!(DatabaseDetector::parse_version(&long), Some("x".repeat(40)));
    assert_eq!(DatabaseDetector::parse_version("   \n"), Some(String::new()));
    assert_eq!(DatabaseDetector::parse_version("10.6-MariaDB-MariaDB,,"), Some("MariaDB 10.6".to_string()));
}
