//! Core logic of a passthrough filesystem engine: it re-exports a directory
//! tree through a remote-filesystem protocol, keeping stable object
//! identities, tracking open handles, parsing the kernel's raw directory
//! record format, and enforcing the safety and privilege policy that every
//! mutating operation must pass through.
//!
//! This crate holds the decision layer only: every function here computes,
//! from plain values, what the surrounding runtime must do next. The actual
//! syscalls (open, stat, truncate, the raw directory read) are performed by
//! the embedding program, which feeds their outcomes back in.

pub mod abi;
pub mod dirent;
pub mod engine;
pub mod errno;
pub mod handle_table;
pub mod object_table;
pub mod policy;
pub mod readdir;
pub mod session;
pub mod setattr;
