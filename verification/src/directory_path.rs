//! Typed path capabilities. Each wrapper is built from a path string
//! together with a probe of what the filesystem reported about that
//! path, and can only be constructed when the probe matches the role
//! the wrapper stands for. The probing itself is filesystem work done
//! by the surrounding program; the acceptance rules live here.

use vstd::prelude::*;
use vstd::string::StringExecFns;
use crate::error::AppError;
use crate::error::AppResult;

verus! {

/// What a single filesystem probe of a path reported.
#[derive(Debug, Clone, Copy, PartialEq, Eq, Structural)]
pub struct PathProbe {
    /// The path exists.
    pub exists: bool,
    /// The path exists and is a directory.
    pub is_dir: bool,
    /// The path exists and is a regular file.
    pub is_file: bool,
    /// The path's permissions are read-only.
    pub readonly: bool,
}

/// A directory that existed and was marked read-only when probed: the
/// role of a transfer source.
#[derive(Debug, Clone, PartialEq, Eq)]
pub struct ReadonlyDirectoryPath {
    path: String,
}

impl View for ReadonlyDirectoryPath {
    type V = Seq<char>;

    closed spec fn view(&self) -> Seq<char> {
        self.path@
    }
}

impl ReadonlyDirectoryPath {
    /// Accepts the path only when the probe saw a read-only directory:
    /// a missing directory is not found, a writable one lacks the
    /// read-only permission this role demands.
    pub fn new(path: String, probe: PathProbe) -> (r: AppResult<ReadonlyDirectoryPath>)
        ensures
            probe.is_dir && probe.readonly ==> (r matches Ok(p) && p@ == path@),
            !probe.is_dir ==> r == Err::<ReadonlyDirectoryPath, AppError>(AppError::NotFound(path)),
            probe.is_dir && !probe.readonly ==> r == Err::<ReadonlyDirectoryPath, AppError>(
                AppError::PermissionDenied(path),
            ),
    {
        if !probe.is_dir {
            Err(AppError::NotFound(path))
        } else if !probe.readonly {
            Err(AppError::PermissionDenied(path))
        } else {
            Ok(ReadonlyDirectoryPath { path })
        }
    }

    /// The path as a string.
    pub fn to_str(&self) -> (r: &str)
        ensures
            r@ == self@,
    {
        self.path.as_str()
    }
}

/// A directory that existed and was writable when probed: the role of
/// a transfer destination.
#[derive(Debug, Clone, PartialEq, Eq)]
pub struct WritableDirectoryPath {
    path: String,
}

impl View for WritableDirectoryPath {
    type V = Seq<char>;

    closed spec fn view(&self) -> Seq<char> {
        self.path@
    }
}

impl WritableDirectoryPath {
    /// Accepts the path only when the probe saw a writable directory.
    pub fn new(path: String, probe: PathProbe) -> (r: AppResult<WritableDirectoryPath>)
        ensures
            probe.is_dir && !probe.readonly ==> (r matches Ok(p) && p@ == path@),
            !probe.is_dir ==> r == Err::<WritableDirectoryPath, AppError>(AppError::NotFound(path)),
            probe.is_dir && probe.readonly ==> r == Err::<WritableDirectoryPath, AppError>(
                AppError::PermissionDenied(path),
            ),
    {
        if !probe.is_dir {
            Err(AppError::NotFound(path))
        } else if probe.readonly {
            Err(AppError::PermissionDenied(path))
        } else {
            Ok(WritableDirectoryPath { path })
        }
    }

    /// The path of the entry named `component` under this directory.
    /// The component is expected to be a relative name.
    pub fn join(&self, component: String) -> (r: WritableDirectoryPath)
        ensures
            r@ == self@ + "/"@ + component@,
    {
        WritableDirectoryPath {
            path: self.path.clone().concat("/").concat(component.as_str()),
        }
    }

    /// The path as a string.
    pub fn to_str(&self) -> (r: &str)
        ensures
            r@ == self@,
    {
        self.path.as_str()
    }
}

/// A path that did not exist when probed: a destination that is still
/// to be materialized as a directory.
#[derive(Debug, Clone, PartialEq, Eq)]
pub struct VirtualDirectoryPath {
    path: String,
}

impl View for VirtualDirectoryPath {
    type V = Seq<char>;

    closed spec fn view(&self) -> Seq<char> {
        self.path@
    }
}

impl VirtualDirectoryPath {
    /// Accepts the path only when the probe saw nothing there yet.
    pub fn new(path: String, probe: PathProbe) -> (r: AppResult<VirtualDirectoryPath>)
        ensures
            !probe.exists ==> (r matches Ok(p) && p@ == path@),
            probe.exists ==> r == Err::<VirtualDirectoryPath, AppError>(
                AppError::AlreadyExists(path),
            ),
    {
        if probe.exists {
            Err(AppError::AlreadyExists(path))
        } else {
            Ok(VirtualDirectoryPath { path })
        }
    }

    /// The path as a string.
    pub fn to_str(&self) -> (r: &str)
        ensures
            r@ == self@,
    {
        self.path.as_str()
    }
}

} // verus!
