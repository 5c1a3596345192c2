//! Node self-reporting: a coarse lifecycle health state and a point-in-time
//! snapshot of host resource metrics (cpu load, memory and swap usage, and
//! the byte footprint of a configured block-storage directory).
//!
//! The probes here work on plain values: the surrounding process performs the
//! filesystem listing and the host OS queries and hands their outcomes in,
//! so that everything this crate concludes from them is verified.

pub mod config;
pub mod cpu;
pub mod disk;
pub mod errors;
pub mod health;
pub mod memory;
pub mod query;
pub mod system;
