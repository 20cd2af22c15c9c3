//! Decision logic of a CPU frequency-scaling control daemon.
//!
//! The daemon keeps the machine's frequency-scaling configuration in sync
//! with a user-selected power level and with the AC-power state.  This crate
//! holds everything the daemon decides: the level vocabulary and its cyclic
//! order, the mapping from a level to frequency/turbo/preference targets,
//! the debouncing of AC-state flips, the apply-on-change write discipline,
//! and the per-tick supervisory step.  Reading and writing the actual
//! control files, the state file and the logger live outside, in the
//! binary that embeds this crate; it hands plain values in and takes the
//! decided writes back out.

pub mod apply;
pub mod cycler;
pub mod debounce;
pub mod level;
pub mod policy;
pub mod store;
pub mod tick;
