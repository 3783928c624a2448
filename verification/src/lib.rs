//! Drives the `adb` device bridge to move files between a host and an Android
//! device.
//!
//! The library decides and the caller performs: every function here builds the
//! command line of one `adb` run, or turns what such a run reported into a
//! typed result. Starting the process and waiting for it is left to the
//! caller, who hands back a [`outcome::ProcessOutcome`].

pub mod command;
pub mod files;
pub mod message;
pub mod outcome;
pub mod transfer;
