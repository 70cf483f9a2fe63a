pub mod config;
pub mod config_json;
pub mod error;
pub mod json;
pub mod monitor;
pub mod monorepo;
pub mod state;
pub mod watch;

pub use config::{GlobalConfig, PackageConfig, TaskConfig};
pub use config_json::{global_config_build, package_config_build};
pub use error::{Error, ErrorCode};
pub use monitor::{FsEvent, FsEventKind, MonitorMonorepoStateAdapter, TargetMatch};
pub use monorepo::{MonorepoState, PackageSource};
pub use state::{PackageState, PackageStateMap, TaskState};
pub use watch::{Stopwatch, WatchAction, WatchFileSystemNotifyAdapter, WatchMessage, WatchSession};
