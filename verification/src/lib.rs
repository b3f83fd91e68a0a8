//! Decision logic of a launcher that supervises one background service
//! process: where the service lives, how it is started, how long the launcher
//! waits for it to answer, and who gets to terminate it.
//!
//! Everything here works on plain values. The caller performs the effects
//! (reading the environment, probing directories, spawning, polling, sleeping)
//! and reports what happened; the library decides what comes next.

pub mod slot;
pub mod text;
pub mod paths;
pub mod search;
pub mod config;
pub mod plan;
pub mod supervisor;
pub mod theorems;
