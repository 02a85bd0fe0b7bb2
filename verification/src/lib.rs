pub mod text;
pub mod error;
pub mod system;
pub mod database;
pub mod phpmyadmin;
pub mod config;
pub mod ui;
