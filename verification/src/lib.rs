//! Discovery engine for installed game modifications.
//!
//! Two categories of mods live under a user-chosen root directory: client
//! mods under `BepInEx/plugins` and server mods under `user/mods`. A poll
//! loop enumerates those directories on a fixed interval, classifies each
//! entry by per-category rules, removes duplicate names, and publishes a
//! full replacement snapshot per category. This crate holds the verified
//! core of that engine: the classification rules, the scan (filter, name
//! extraction, deduplication), and the per-cycle state transitions of the
//! engine that owns the root path and both snapshots. The surrounding
//! process supplies directory listings as plain values and performs the
//! actual filesystem reads, sleeps, and presentation.

pub mod engine;
pub mod entry;
pub mod laws;
pub mod scan;
