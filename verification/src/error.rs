//! Error kinds surfaced by the transfer engine.

use vstd::prelude::*;
use vstd::string::StringExecFns;

verus! {

/// Every failure the engine can decide on or report.
///
/// Filesystem failures observed by the surrounding program are handed in
/// as `Io`; the other kinds are produced by the library's own rules.
#[derive(Debug, PartialEq, Eq)]
pub enum AppError {
    /// A path that was expected to exist does not, or an entry expected
    /// in a copied tree is missing. Carries the offending path.
    NotFound(String),
    /// A path does not have the permission its role demands.
    PermissionDenied(String),
    /// A path that was expected not to exist is already present.
    AlreadyExists(String),
    /// A malformed template, weekday token or date component.
    InvalidInput(String),
    /// A copied file's digest differs from its source's digest.
    /// Carries the source digest and the destination digest.
    IntegrityMismatch(String, String),
    /// The immediate entry names of destination and source differ
    /// after the copy.
    StructuralMismatch,
    /// Today's weekday is not the configured weekday.
    SchedulingMismatch,
    /// The destination directory already holds data.
    DestinationNotEmpty,
    /// An underlying read, write or delete failed; carries a description.
    Io(String),
}

impl AppError {
    /// The text of the error's report.
    pub open spec fn message_view(&self) -> Seq<char> {
        match self {
            AppError::NotFound(path) => "not found: "@ + path@,
            AppError::PermissionDenied(path) => "permission denied: "@ + path@,
            AppError::AlreadyExists(path) => "already exists: "@ + path@,
            AppError::InvalidInput(detail) => "invalid input: "@ + detail@,
            AppError::IntegrityMismatch(expected, actual) => "integrity mismatch: "@ + expected@
                + " -> "@ + actual@,
            AppError::StructuralMismatch => "destination entries do not match the source"@,
            AppError::SchedulingMismatch => "today is not the configured weekday"@,
            AppError::DestinationNotEmpty => "destination directory already holds data"@,
            AppError::Io(detail) => "io error: "@ + detail@,
        }
    }

    /// A human-readable description of the error, for reporting.
    pub fn message(&self) -> (r: String)
        ensures
            r@ == self.message_view(),
    {
        match self {
            AppError::NotFound(path) => {
                "not found: ".to_owned().concat(path.as_str())
            },
            AppError::PermissionDenied(path) => {
                "permission denied: ".to_owned().concat(path.as_str())
            },
            AppError::AlreadyExists(path) => {
                "already exists: ".to_owned().concat(path.as_str())
            },
            AppError::InvalidInput(detail) => {
                "invalid input: ".to_owned().concat(detail.as_str())
            },
            AppError::IntegrityMismatch(expected, actual) => {
                "integrity mismatch: "
                    .to_owned()
                    .concat(expected.as_str())
                    .concat(" -> ")
                    .concat(actual.as_str())
            },
            AppError::StructuralMismatch => {
                "destination entries do not match the source".to_owned()
            },
            AppError::SchedulingMismatch => {
                "today is not the configured weekday".to_owned()
            },
            AppError::DestinationNotEmpty => {
                "destination directory already holds data".to_owned()
            },
            AppError::Io(detail) => {
                "io error: ".to_owned().concat(detail.as_str())
            },
        }
    }
}

/// The result type used throughout the engine.
pub type AppResult<T> = Result<T, AppError>;

} // verus!
