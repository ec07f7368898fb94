//! Configuration records, as plain values.
//!
//! The daemon reads its configuration file once at startup, outside this
//! crate; the decoded records arrive here in file order. Each record asks
//! for one gesture to be mapped to one command. Which records are
//! recognized, and what a duplicate means, is decided at table-build time
//! in [`crate::commands`].

use vstd::prelude::*;

verus! {

/// The decoded configuration: an ordered list of mapping records.
#[derive(Debug)]
pub struct TomlConfig {
    pub mappings: Vec<Mapping>,
}

/// One configured entry: a gesture name, the finger count it applies to
/// (required for swipe gestures, absent for scroll gestures), the command
/// to run and the kind of command.
#[derive(Debug)]
pub struct Mapping {
    pub gesture: String,
    pub cmd: String,
    pub cmd_type: String,
    pub finger_count: Option<i32>,
}

} // verus!
