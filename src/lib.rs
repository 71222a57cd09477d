//! Installs, lists and removes plugins fetched as source snapshots of
//! hosted repositories.
//!
//! The library holds the decisions of each command: it resolves a
//! repository address, judges the hosting service's responses, normalises
//! the snapshot archive, plans the files of an installation and reads
//! plugin metadata. Performing requests and touching the filesystem is
//! left to the caller, which hands the library plain values.

pub mod archive;
pub mod error;
pub mod github;
pub mod install;
pub mod json;
pub mod listing;
pub mod paths;
pub mod plugin;
pub mod reference;
pub mod text;

pub use archive::{get_files_from_gzip, ProjectFile, ProjectPath};
pub use error::PluginError;
pub use plugin::{parse_plugin, parse_plugins, remove_plugin, Plugin, PluginPermission};
pub use listing::list_plugins;
pub use paths::get_default_chatterino_path;
