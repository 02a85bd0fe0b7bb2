pub mod process;
pub mod service;
pub mod port;
pub mod package_manager;

pub use package_manager::{detect_package_manager, PackageManager};
pub use port::PortChecker;
pub use process::SafeCommand;
pub use service::{ServiceState, SystemdManager};
