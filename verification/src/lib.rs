//! A verified core for a container-management command line.
//!
//! The library holds everything the program decides or computes on its own:
//! parsing the command line into a typed command, building the lines that are
//! printed for each runtime response, wrapping runtime failures with context,
//! and the small per-command state machines that drive each streaming call.
//! The unverified binary around it only performs the runtime API calls and
//! prints whatever these functions hand it.

pub mod errors;
pub mod laws;
pub mod output;
pub mod router;
pub mod session;
