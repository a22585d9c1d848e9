//! The validated configuration the orchestrator runs on: a read-only
//! source directory, a writable destination directory and the weekday
//! the transfer is gated on.

use vstd::prelude::*;
use crate::directory_path::PathProbe;
use crate::directory_path::ReadonlyDirectoryPath;
use crate::directory_path::WritableDirectoryPath;
use crate::error::AppError;
use crate::error::AppResult;
use crate::weekday::WeekDay;

verus! {

/// The transfer source: a directory that proved to exist read-only.
#[derive(Debug, Clone, PartialEq, Eq)]
pub struct SourceDirectoryPath {
    dir: ReadonlyDirectoryPath,
}

impl View for SourceDirectoryPath {
    type V = Seq<char>;

    closed spec fn view(&self) -> Seq<char> {
        self.dir@
    }
}

impl SourceDirectoryPath {
    /// Accepts the path only when the probe saw a read-only directory,
    /// with the same rejections as the underlying capability.
    pub fn new(path: String, probe: PathProbe) -> (r: AppResult<SourceDirectoryPath>)
        ensures
            probe.is_dir && probe.readonly ==> (r matches Ok(p) && p@ == path@),
            !probe.is_dir ==> r == Err::<SourceDirectoryPath, AppError>(AppError::NotFound(path)),
            probe.is_dir && !probe.readonly ==> r == Err::<SourceDirectoryPath, AppError>(
                AppError::PermissionDenied(path),
            ),
    {
        match ReadonlyDirectoryPath::new(path, probe) {
            Ok(dir) => Ok(SourceDirectoryPath { dir }),
            Err(e) => Err(e),
        }
    }

    /// The path as a string.
    pub fn to_str(&self) -> (r: &str)
        ensures
            r@ == self@,
    {
        self.dir.to_str()
    }
}

/// The transfer destination: a directory that proved to exist and be
/// writable, already materialized from any date template.
#[derive(Debug, Clone, PartialEq, Eq)]
pub struct DestinationDirectoryPath {
    dir: WritableDirectoryPath,
}

impl View for DestinationDirectoryPath {
    type V = Seq<char>;

    closed spec fn view(&self) -> Seq<char> {
        self.dir@
    }
}

impl DestinationDirectoryPath {
    /// Wraps an already materialized writable directory. Rendering the
    /// date template and creating the directory on disk come before
    /// this and are the surrounding program's work.
    pub fn new(dir: WritableDirectoryPath) -> (r: DestinationDirectoryPath)
        ensures
            r@ == dir@,
    {
        DestinationDirectoryPath { dir }
    }

    /// The path of the entry named `component` under the destination.
    pub fn join(&self, component: String) -> (r: WritableDirectoryPath)
        ensures
            r@ == self@ + "/"@ + component@,
    {
        self.dir.join(component)
    }

    /// The path as a string.
    pub fn to_str(&self) -> (r: &str)
        ensures
            r@ == self@,
    {
        self.dir.to_str()
    }
}

/// The immutable aggregate the orchestrator receives; it can only be
/// built from fully validated parts.
#[derive(Debug, Clone, PartialEq, Eq)]
pub struct Config {
    pub source_directory_path: SourceDirectoryPath,
    pub dest_directory_path: DestinationDirectoryPath,
    pub weekday: WeekDay,
}

} // verus!
