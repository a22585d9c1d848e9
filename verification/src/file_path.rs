//! The typed capability for a writable regular file, used for the
//! configuration file the surrounding program reads.

use vstd::prelude::*;
use crate::directory_path::PathProbe;
use crate::error::AppError;
use crate::error::AppResult;

verus! {

/// A regular file that existed and was writable when probed.
#[derive(Debug, Clone, PartialEq, Eq)]
pub struct WritableFilePath {
    path: String,
}

impl View for WritableFilePath {
    type V = Seq<char>;

    closed spec fn view(&self) -> Seq<char> {
        self.path@
    }
}

impl WritableFilePath {
    /// Accepts the path only when the probe saw a writable regular
    /// file: anything else is not found, a read-only file lacks the
    /// write permission this role demands.
    pub fn new(path: String, probe: PathProbe) -> (r: AppResult<WritableFilePath>)
        ensures
            probe.is_file && !probe.readonly ==> (r matches Ok(p) && p@ == path@),
            !probe.is_file ==> r == Err::<WritableFilePath, AppError>(AppError::NotFound(path)),
            probe.is_file && probe.readonly ==> r == Err::<WritableFilePath, AppError>(
                AppError::PermissionDenied(path),
            ),
    {
        if !probe.is_file {
            Err(AppError::NotFound(path))
        } else if probe.readonly {
            Err(AppError::PermissionDenied(path))
        } else {
            Ok(WritableFilePath { path })
        }
    }

    /// The path as a string.
    pub fn to_str(&self) -> (r: &str)
        ensures
            r@ == self@,
    {
        self.path.as_str()
    }
}

} // verus!
