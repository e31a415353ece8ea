//! Decision logic for a build-automation command wrapper.
//!
//! The crate selects package-manager invocation plans from an operating-system
//! and Linux-distribution classification, fixes the exact argument lists of
//! every external command the wrapper may run, and decides which non-zero exit
//! codes abort a run.  Spawning processes, reading the identification file and
//! touching the filesystem are left to an unverified driver; everything here is
//! a function from plain values to plain values.

pub mod aux_tool;
pub mod command;
pub mod outcome;
pub mod plan;
pub mod platform;
pub mod tasks;
pub mod text;
