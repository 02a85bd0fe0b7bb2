use mysqldesk::database::DatabaseType;
use mysqldesk::error::AppError;
use mysqldesk::system::ServiceState;
use mysqldesk::ui::presentation::{ActionButtons, Presentation};

#[test]
fn error_messages() {
    assert_eq!(
        AppError::ServiceNotFound("x.service".to_string()).message(),
        "Service systemd 'x.service' tidak ditemukan pada sistem."
    );
    assert_eq!(
        AppError::ServiceActionFailed { service: "s".into(), action: "start".into(), details: "d".into() }.message(),
        "Gagal menjalankan 'start' pada service s: d"
    );
    assert_eq!(
        AppError::PortConflict { port: 3306, details: "busy".into() }.message(),
        "Port 3306 sedang digunakan oleh proses lain: busy"
    );
    assert_eq!(AppError::Cancelled.message(), "Operasi dibatalkan oleh pengguna.");
    assert_eq!(AppError::IoError("e".into()).message(), "Kesalahan I/O: e");
    assert_eq!(AppError::PhpNotInstalled.message(), "Runtime PHP belum terpasang. phpMyAdmin membutuhkan PHP CLI.");
}

#[test]
fn dashboard_presentation() {
    assert_eq!(Presentation::badge_label(ServiceState::Running), "● Running");
    assert_eq!(Presentation::phpmyadmin_state(false, true), ServiceState::Unknown);
    assert_eq!(Presentation::phpmyadmin_state(true, true), ServiceState::Running);
    assert_eq!(Presentation::phpmyadmin_state(true, false), ServiceState::Stopped);
    assert_eq!(Presentation::action_buttons(ServiceState::Running), ActionButtons { start: false, stop: true, restart: true });
    assert_eq!(Presentation::action_buttons(ServiceState::Stopped), ActionButtons { start: true, stop: false, restart: false });
    assert_eq!(Presentation::action_buttons(ServiceState::Error), ActionButtons { start: true, stop: true, restart: true });
    assert_eq!(Presentation::root_auth_badge(false), ("● Perlu Konfigurasi Root", "status-starting"));
    assert_eq!(Presentation::detection_mark(true), ("✓", "status-running"));
    assert_eq!(Presentation::server_button_label(false), "Start Server");
    let rows = Presentation::detection_rows(DatabaseType::MySQL, true, false);
    assert_eq!(rows[0], ("MariaDB Tidak Terpasang", false));
    assert_eq!(rows[1], ("MySQL Server Terdeteksi", true));
    assert_eq!(rows[4], ("phpMyAdmin Belum Dipasang", false));
    assert!(Presentation::connection_guide(3307, "/run/s.sock").contains("-P 3307 -u root -p\natau via UNIX socket:\n  mariadb -S /run/s.sock"));
}

#[test]
fn log_filtering() {
    let raw = "Started MariaDB\nERROR: disk full\nwarning: Error again\r\nok";
    assert_eq!(Presentation::filter_log(raw, "  "), raw);
    assert_eq!(Presentation::filter_log(raw, "error"), "ERROR: disk full\nwarning: Error again");
    assert_eq!(Presentation::filter_log(raw, "zzz"), "");
    assert_eq!(Presentation::filter_log("ÉTÉ\nete", "été"), "ÉTÉ");
}
