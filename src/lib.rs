//! Resolves, caches and launches a tool that ships as versioned, per-platform
//! release archives.
//!
//! The library holds every decision of the install pipeline: which archive a
//! platform needs, where it is cached, when it is downloaded, which cached
//! versions are evicted and which command finally runs. The host performs the
//! requested work and reports back through [`installer::Installer::step`].

mod platform;
mod release;
mod paths;
mod installer;
mod laws;

pub use platform::{Arch, ArchiveFormat, Os, Platform, arch_token, archive_extension, archive_format, binary_file_name, expected_asset_name, os_token};
pub use release::{Asset, Command, LaunchError, Release, find_asset, list_names};
pub use paths::{cache_directory, file_path, join_path, sanitize_working_dir};
pub use installer::{Action, Event, Installer, InstallerView, Stage, ToolConfig, stale_entries};
pub use laws::{cached_asset_is_never_downloaded, eviction_spares_only_current, failed_install_is_rolled_back, failed_release_lookup_ends_run, missing_asset_reports_expected_and_offered};
