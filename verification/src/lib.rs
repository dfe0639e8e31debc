//! Selects a browser profile directory from a domain list and builds the
//! command line that launches a sandboxed browser with that profile.
//!
//! The library holds the decision logic: parsing the positional arguments,
//! testing a URL against the domain list, and assembling the launcher's
//! argument vector. Reading the domain file and spawning the child process
//! are left to the surrounding binary.

pub mod args;
pub mod command;
pub mod profile;
