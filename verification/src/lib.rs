//! Assertions on the observable behaviour of command-line programs: exit
//! status, exit code and captured output.
//!
//! An [`Assert`] is built up call by call and then checked against what
//! came of one run of the command. Running the command is left to the
//! caller; every decision about its result is made here.

pub mod assertion;
pub mod capture;
pub mod errors;
pub mod laws;
pub mod output;
pub mod report;
pub mod text;
pub mod verdict;

pub use crate::assertion::{Assert, OutputAssertionBuilder};
pub use crate::capture::ProcessOutput;
pub use crate::errors::AssertionError;
pub use crate::output::{OutputAssertion, OutputKind};
