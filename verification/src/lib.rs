//! A pass-through text copier with a counting processor.
//!
//! The processor numbers the texts it is handed and describes each one;
//! the runner decides what a copy from a source to a sink reads and emits.

pub mod clock;
pub mod decimal;
pub mod error;
pub mod processor;
pub mod runner;

pub use crate::error::Error;
pub use crate::processor::{BackupCopyProcessor, ProcessData, ProcessResult, Stats};
