pub mod settings;

pub use settings::AppSettings;
