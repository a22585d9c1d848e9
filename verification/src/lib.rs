//! Integrity-checked, weekday-gated relocation of a directory tree.
//!
//! The library holds the decision core of the transfer engine: the
//! validating path-capability constructors, the date and weekday rules,
//! the date-template rendering for destination paths, the in-memory
//! directory-tree model with its verified copy, the per-file digest
//! verification, the structural comparison of directory listings, and
//! the validate/transfer orchestration with its rollback policy.
//! Reading directories, writing files and clearing trees are filesystem
//! effects performed by the surrounding program, which hands snapshots
//! and probe results in and enacts the decisions that come back.

pub mod config;
pub mod date;
pub mod directory_data_transfer_service;
pub mod directory_path;
pub mod error;
pub mod file_path;
pub mod file_system;
pub mod fs_model;
pub mod hashing;
pub mod path_template_renderer;
pub mod text;
pub mod weekday;

pub use error::AppError;
pub use error::AppResult;
