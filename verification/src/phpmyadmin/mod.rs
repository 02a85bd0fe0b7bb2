pub mod detector;
pub mod launcher;

pub use detector::{PhpMyAdminDetector, PhpMyAdminInfo};
pub use launcher::LaunchPlan;
