//! Inspection of one filesystem entry and the bordered text report about it.
//!
//! The library holds the decisions and the rendering; gathering metadata from
//! the operating system is left to the caller, which hands over plain values.
pub mod cli;
pub mod path;
pub mod perms;
pub mod report;
pub mod text;
