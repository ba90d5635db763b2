//! Verified core of a small status monitor.
//!
//! The crate holds the decision logic only: a registry that correlates
//! removable block devices with their mount paths, the retry state machine
//! that resolves a freshly created mount directory against the mount table,
//! and the shaping of media-player status for display. Watching the
//! filesystem, sleeping, reading the mount table and talking to the player
//! are left to the caller, which feeds the results in as plain values.

pub mod disks;
pub mod events;
pub mod history;
pub mod mounts;
pub mod mpd;
pub mod registry;
pub mod resolution;
pub mod search;
pub mod text;
