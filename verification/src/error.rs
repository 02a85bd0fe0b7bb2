use vstd::prelude::*;
use crate::text::{decimal, decimal_chars, string_of};

verus! {

/// Errors reported by the service, detection and launcher operations.
#[derive(Debug, Clone)]
pub enum AppError {
    ServiceNotFound(String),
    ServiceActionFailed { service: String, action: String, details: String },
    PermissionDenied(String),
    PortConflict { port: u16, details: String },
    DatabaseNotInstalled,
    PhpNotInstalled,
    PhpMyAdminNotInstalled,
    PhpMyAdminLaunchFailed(String),
    NetworkError(String),
    IoError(String),
    ConfigError(String),
    Cancelled,
}

pub type AppResult<T> = Result<T, AppError>;

/// The user-facing text of an error.
pub open spec fn app_error_message(e: AppError) -> Seq<char> {
    match e {
        AppError::ServiceNotFound(name) =>
            "Service systemd '"@ + name@ + "' tidak ditemukan pada sistem."@,
        AppError::ServiceActionFailed { service, action, details } =>
            "Gagal menjalankan '"@ + action@ + "' pada service "@ + service@ + ": "@ + details@,
        AppError::PermissionDenied(msg) =>
            "Tidak memiliki izin administrator untuk mengontrol service database. Silakan masukkan password PolicyKit dengan benar: "@
                + msg@,
        AppError::PortConflict { port, details } =>
            "Port "@ + decimal(port as nat) + " sedang digunakan oleh proses lain: "@ + details@,
        AppError::DatabaseNotInstalled => "Server MariaDB atau MySQL belum terpasang pada sistem ini."@,
        AppError::PhpNotInstalled => "Runtime PHP belum terpasang. phpMyAdmin membutuhkan PHP CLI."@,
        AppError::PhpMyAdminNotInstalled => "phpMyAdmin belum terpasang atau belum diunduh."@,
        AppError::PhpMyAdminLaunchFailed(msg) => "Gagal menjalankan server lokal phpMyAdmin: "@ + msg@,
        AppError::NetworkError(msg) => "Kesalahan jaringan: "@ + msg@,
        AppError::IoError(msg) => "Kesalahan I/O: "@ + msg@,
        AppError::ConfigError(msg) => "Kesalahan konfigurasi: "@ + msg@,
        AppError::Cancelled => "Operasi dibatalkan oleh pengguna."@,
    }
}

impl AppError {
    /// The user-facing text of the error (what the error displays as).
    pub fn message(&self) -> (res: String)
        ensures
            res@ == app_error_message(*self),
    {
        match self {
            AppError::ServiceNotFound(name) => {
                let mut m = String::from_str("Service systemd '");
                m.append(name.as_str());
                m.append("' tidak ditemukan pada sistem.");
                m
            },
            AppError::ServiceActionFailed { service, action, details } => {
                let mut m = String::from_str("Gagal menjalankan '");
                m.append(action.as_str());
                m.append("' pada service ");
                m.append(service.as_str());
                m.append(": ");
                m.append(details.as_str());
                m
            },
            AppError::PermissionDenied(msg) => {
                let mut m = String::from_str(
                    "Tidak memiliki izin administrator untuk mengontrol service database. Silakan masukkan password PolicyKit dengan benar: ",
                );
                m.append(msg.as_str());
                m
            },
            AppError::PortConflict { port, details } => {
                let digits = string_of(&decimal_chars(*port as u64));
                let mut m = String::from_str("Port ");
                m.append(digits.as_str());
                m.append(" sedang digunakan oleh proses lain: ");
                m.append(details.as_str());
                m
            },
            AppError::DatabaseNotInstalled => String::from_str(
                "Server MariaDB atau MySQL belum terpasang pada sistem ini.",
            ),
            AppError::PhpNotInstalled => String::from_str(
                "Runtime PHP belum terpasang. phpMyAdmin membutuhkan PHP CLI.",
            ),
            AppError::PhpMyAdminNotInstalled => String::from_str(
                "phpMyAdmin belum terpasang atau belum diunduh.",
            ),
            AppError::PhpMyAdminLaunchFailed(msg) => {
                let mut m = String::from_str("Gagal menjalankan server lokal phpMyAdmin: ");
                m.append(msg.as_str());
                m
            },
            AppError::NetworkError(msg) => {
                let mut m = String::from_str("Kesalahan jaringan: ");
                m.append(msg.as_str());
                m
            },
            AppError::IoError(msg) => {
                let mut m = String::from_str("Kesalahan I/O: ");
                m.append(msg.as_str());
                m
            },
            AppError::ConfigError(msg) => {
                let mut m = String::from_str("Kesalahan konfigurasi: ");
                m.append(msg.as_str());
                m
            },
            AppError::Cancelled => String::from_str("Operasi dibatalkan oleh pengguna."),
        }
    }
}

} // verus!
