//! The transfer orchestrator: validation, the verdict over what the
//! copy produced on disk, and the rollback-or-commit policy.
//!
//! The orchestrator decides; the surrounding program acts. It probes
//! whether the destination is empty and hands the answer to
//! [`DirectoryDataTransferService::validate`]; it snapshots the source,
//! writes the engine's copy to the destination, re-reads what actually
//! landed there, and hands both trees to
//! [`DirectoryDataTransferService::transfer`]. An `Ok` verdict means
//! the transfer is verified: the caller then clears the source and
//! reports success. An `Err` verdict means the destination's contents
//! are to be discarded (rollback) and the error reported; the source
//! is left untouched.

use vstd::prelude::*;
use crate::config::Config;
use crate::date::Date;
use crate::date::weekday_index_of;
use crate::error::AppError;
use crate::error::AppResult;
use crate::file_system::FileSystem;
use crate::file_system::VerifyFailure;
use crate::file_system::lemma_verify_walk_none;
use crate::file_system::same_entry_names;
use crate::file_system::verify_walk;
use crate::fs_model::DirTree;

verus! {

/// What the surrounding program reports of its attempt to write the
/// copy to the destination.
pub enum CopyOutcome {
    /// The copy was written; carries the destination tree as re-read
    /// from disk afterwards.
    Copied(DirTree),
    /// Writing the copy failed with this error.
    CopyFailed(AppError),
}

/// One transfer run: a validated configuration and the date that
/// stands for now, consumed once through validate and transfer.
#[derive(Debug)]
pub struct DirectoryDataTransferService {
    pub config: Config,
    pub now: Date,
}

impl DirectoryDataTransferService {
    /// Wraps a configuration together with the date the run is made
    /// on; the surrounding program takes that date from the clock.
    pub fn new(config: Config, now: Date) -> (r: DirectoryDataTransferService)
        ensures
            r.config == config,
            r.now == now,
    {
        DirectoryDataTransferService { config, now }
    }

    /// The same run with another date standing for now, as tests
    /// inject a fixed one.
    pub fn with_custom_now(self, now: Date) -> (r: DirectoryDataTransferService)
        ensures
            r.config == self.config,
            r.now == now,
    {
        DirectoryDataTransferService { config: self.config, now }
    }

    /// Checks the two preconditions of a run: today must be the
    /// configured weekday, and the destination must be empty (the
    /// caller probes the directory and passes what it saw). Both
    /// checks are pure reads; nothing is mutated on any path.
    pub fn validate(self, dest_is_empty: bool) -> (r: AppResult<DirectoryDataTransferService>)
        requires
            self.now.valid(),
        ensures
            ({
                let scheduled = self.config.weekday.index_spec() == weekday_index_of(
                    self.now.year as int,
                    self.now.month as int,
                    self.now.day as int,
                );
                &&& (scheduled && dest_is_empty) ==> r == Ok::<
                    DirectoryDataTransferService,
                    AppError,
                >(self)
                &&& !scheduled ==> r == Err::<DirectoryDataTransferService, AppError>(
                    AppError::SchedulingMismatch,
                )
                &&& (scheduled && !dest_is_empty) ==> r == Err::<
                    DirectoryDataTransferService,
                    AppError,
                >(AppError::DestinationNotEmpty)
            }),
    {
        if !self.config.weekday.matches_weekday(&self.now) {
            return Err(AppError::SchedulingMismatch);
        }
        if !dest_is_empty {
            return Err(AppError::DestinationNotEmpty);
        }
        Ok(self)
    }

    /// Decides the outcome of the transfer from what the copy left on
    /// disk. A failed copy propagates its error. After a written copy,
    /// every file under the source must be under the observed
    /// destination with a matching digest, and the destination's
    /// immediate entry names must equal the source's; the first digest
    /// difference is an integrity error, a stray or missing top-level
    /// entry a structural one. `Ok` directs the caller to clear the
    /// source and report success; any `Err` directs it to clear the
    /// destination and report the error, leaving the source untouched.
    pub fn transfer(&self, source: &DirTree, outcome: CopyOutcome) -> (r: AppResult<()>)
        ensures
            (outcome matches CopyOutcome::CopyFailed(e) ==> r == Err::<(), AppError>(e)),
            (outcome matches CopyOutcome::Copied(observed) ==> ({
                let failure = verify_walk(source.entries_view(), observed.entries_view());
                let structure_ok = same_entry_names(
                    observed.entries_view(),
                    source.entries_view(),
                );
                &&& (r is Ok) == (failure is None && structure_ok)
                &&& (failure matches Some(VerifyFailure::Missing(n)) ==> (r matches Err(e)
                    && e matches AppError::NotFound(p) && p@ == n))
                &&& (failure matches Some(VerifyFailure::DigestMismatch(x, y)) ==> (r matches Err(
                    e,
                ) && e matches AppError::IntegrityMismatch(a, b) && a@ == x && b@ == y))
                &&& ((failure is None && !structure_ok) ==> r == Err::<(), AppError>(
                    AppError::StructuralMismatch,
                ))
            })),
    {
        match outcome {
            CopyOutcome::CopyFailed(e) => Err(e),
            CopyOutcome::Copied(observed) => {
                proof {
                    lemma_verify_walk_none(source.entries_view(), observed.entries_view());
                }
                match FileSystem::copy_all_data_under_the_directory_with_hash_verification(
                    source,
                    &observed,
                ) {
                    Err(e) => Err(e),
                    Ok(()) => {
                        if FileSystem::verify_directory_contents_match(&observed, source) {
                            Ok(())
                        } else {
                            Err(AppError::StructuralMismatch)
                        }
                    },
                }
            },
        }
    }
}

} // verus!
