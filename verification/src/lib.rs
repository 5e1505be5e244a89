//! A small filesystem path layer for a tool that keeps all of its files in a
//! per-user working directory (the "autorun" root, `~/autorun`).
//!
//! The crate resolves the user's home directory (including the case where the
//! process runs under a Windows-compatibility shim on a POSIX host), derives
//! the autorun root from it, and exposes a root-relative path type, [`FSPath`],
//! together with the join/strip arithmetic that keeps every path handed to a
//! caller relative to that root.

pub mod fspath;
pub mod home;
pub mod paths;

pub use fspath::FSPath;
pub use home::home_dir;
pub use home::resolve_home;
pub use home::HomeError;
pub use paths::base;
pub use paths::in_autorun;
pub use paths::join;
pub use paths::relativize;
pub use paths::strip_base;
pub use paths::AUTORUN_PATH;
pub use paths::BIN_DIR;
pub use paths::DUMP_DIR;
pub use paths::HOOK_PATH;
pub use paths::INCLUDE_DIR;
pub use paths::LOG_DIR;
pub use paths::PLUGIN_DIR;
pub use paths::SETTINGS_PATH;
