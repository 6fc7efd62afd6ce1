//! Rebase the checked-out branch onto a freshly pulled copy of a remote
//! branch, shelving local changes in a stash around the operation.
//!
//! The library holds the whole decision procedure as a state machine: it
//! names the next version-control command to run, reads back how that
//! command went, and says what to print and when to stop. Running the
//! commands is left to the caller.
pub mod command;
pub mod laws;
pub mod message;
pub mod text;
pub mod updater;
