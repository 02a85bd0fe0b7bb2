pub mod config;
pub mod detector;
pub mod auth;
pub mod mariadb;
pub mod mysql;
pub mod service;

pub use auth::DatabaseAuth;
pub use config::DatabaseConfig;
pub use detector::{DatabaseDetector, DatabaseInfo, DatabaseType};
pub use mariadb::MariaDbInfo;
pub use mysql::MySqlInfo;
pub use service::DatabaseService;
