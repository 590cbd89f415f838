//! Livepatch skeleton: the module never decides what to patch; it only
//! provides atomic execution and status reporting.
pub mod dummy_target;
pub mod executor;
pub mod guard;
