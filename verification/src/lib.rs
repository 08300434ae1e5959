//! The exit codes of `<sysexits.h>` as a closed enumeration, with every
//! conversion between that enumeration and the world around it: integers of
//! every type, the status that a process ended with, the kinds of I/O errors,
//! and results whose error is an exit code.
//!
//! What a value of [`ExitCode`] means is its number, [`ExitCode::value`]: 0
//! for success and 64 to 78 for the fifteen failures. Each conversion has a
//! contract that pins its result over that number, and the laws that hold
//! between the conversions are proof functions beside them.
//!
//! - [`ExitCode`]: the type, its predicates, constants and conversions.
//! - [`Result`]: a result whose error is an `ExitCode`.
//! - [`error`]: what the conversions that can fail return.
//! - [`decimal`]: how a number is written in the renderings.
//! - [`io`]: what is taken from `std::io` without proof.
//! - [`sysexits`]: the same sixteen codes as plain constants.

pub mod decimal;
pub mod error;
mod exit_code;
pub mod io;
pub mod sysexits;

pub use crate::exit_code::{result::Result, ExitCode};
