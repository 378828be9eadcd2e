//! Front end of a test-mode dispatcher.
//!
//! The command line names the test modes to run; each mode has a folder of
//! its own under `tests`. This library holds every decision of that front
//! end: how the arguments are read, which modes make up the run plan, what
//! is asked of the file system and in which order, when the harness is
//! handed a mode, and how the run ends. Looking at the disk and running the
//! harness are left to the caller, who answers the questions that a
//! [`session::Session`] asks.

pub mod cli;
pub mod fields;
pub mod guarantees;
pub mod mode;
pub mod opts;
pub mod outcome;
pub mod run;
pub mod session;
