//! Detects development-kit projects in a directory tree, reads their configuration, and decides
//! which files are eligible for further processing.
//!
//! The library works on what was read from disk (file contents, sizes, which paths exist) and
//! never touches the file system itself.
use vstd::prelude::*;

pub mod config_detector;
pub mod env;
pub mod file_validator;
pub mod paths;
pub mod project_detector;
pub mod scan;
pub mod text;

pub use config_detector::{AdkConfigDetector, AdkConfigInfo, ConfigFileInfo, ConfigSource, ConfigType};
pub use env::EnvVars;
pub use file_validator::{
    FileEntry, FileStatistics, FileType, FileValidationResult, FileValidator, PathStatus,
};
pub use project_detector::{
    AdkProjectDetector, AdkProjectInfo, AdkProjectType, PendingDir, ProjectFinder, ProjectProbe,
    SubDir,
};


verus! {

/// Whether a development-kit version string is usable: any non-empty string is.
pub fn is_compatible_adk_version(adk_version: &str) -> (r: bool)
    ensures
        r == (adk_version@.len() > 0),
{
    !adk_version.is_empty()
}

/// Bounds and switches for a detection pass.
#[derive(Debug, Clone, Copy)]
pub struct DetectionConfig {
    /// Largest file size to process, in bytes
    pub max_file_size: u64,
    /// Smallest file size to process, in bytes
    pub min_file_size: u64,
    /// Whether build artifacts take part in detection
    pub include_build_artifacts: bool,
    /// Whether symbolic links are followed
    pub follow_symlinks: bool,
    /// Deepest directory level searched
    pub max_depth: usize,
}

impl Default for DetectionConfig {
    /// Files of 1 byte up to 50 MiB, no build artifacts, no symbolic links, depth 3.
    fn default() -> (r: Self)
        ensures
            r.max_file_size == 50 * 1024 * 1024,
            r.min_file_size == 1,
            !r.include_build_artifacts,
            !r.follow_symlinks,
            r.max_depth == 3,
    {
        DetectionConfig {
            max_file_size: 50 * 1024 * 1024,
            min_file_size: 1,
            include_build_artifacts: false,
            follow_symlinks: false,
            max_depth: 3,
        }
    }
}

impl DetectionConfig {
    /// Files of 10 bytes up to 1 MiB, no build artifacts, no symbolic links, depth 5.
    pub fn for_code_review() -> (r: Self)
        ensures
            r.max_file_size == 1024 * 1024,
            r.min_file_size == 10,
            !r.include_build_artifacts,
            !r.follow_symlinks,
            r.max_depth == 5,
    {
        DetectionConfig {
            max_file_size: 1024 * 1024,
            min_file_size: 10,
            include_build_artifacts: false,
            follow_symlinks: false,
            max_depth: 5,
        }
    }

    /// Files of 1 byte up to 10 MiB, with build artifacts and symbolic links, depth 10.
    pub fn for_project_analysis() -> (r: Self)
        ensures
            r.max_file_size == 10 * 1024 * 1024,
            r.min_file_size == 1,
            r.include_build_artifacts,
            r.follow_symlinks,
            r.max_depth == 10,
    {
        DetectionConfig {
            max_file_size: 10 * 1024 * 1024,
            min_file_size: 1,
            include_build_artifacts: true,
            follow_symlinks: true,
            max_depth: 10,
        }
    }
}

/// The configuration a detection pass starts from.
pub fn get_default_detection_config() -> (r: DetectionConfig)
    ensures
        r.max_file_size == 50 * 1024 * 1024,
        r.min_file_size == 1,
        !r.include_build_artifacts,
        !r.follow_symlinks,
        r.max_depth == 3,
{
    DetectionConfig::default()
}

} // verus!
