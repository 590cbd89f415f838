//! The zenvecha kernel module's capability layer and livepatch skeleton,
//! as plain data and logic.
pub mod capability;
pub mod livepatch;
