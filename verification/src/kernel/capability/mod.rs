//! Kernel capability layer: compile-time descriptors (what probes promise)
//! and runtime probe results (what was found).
pub mod probes;
pub mod types;
