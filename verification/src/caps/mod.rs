//! Capability domains. Capabilities never print, score or recommend; they
//! only detect and return evidence.
pub mod abi;
pub mod buildenv;
pub mod config;
pub mod debug;
pub mod fs;
pub mod kernel;
pub mod kernel_cap;
pub mod modules;
pub mod symbols;
pub mod toolchain;

use crate::kconfig::{config_value, value_from, ConfigValue};
use crate::scan::{mount_ok, mounted_from};
use crate::snapshot::SystemSnapshot;
use vstd::prelude::*;

verus! {

/// The kernel configuration text, when one was read.
pub open spec fn spec_config_text(sys: &SystemSnapshot) -> Option<Seq<char>> {
    match sys.config {
        Some(c) => Some(c.text@),
        None => None,
    }
}

/// The value of option `key` in the configuration (`Missing` without one).
pub open spec fn spec_cfg_val(sys: &SystemSnapshot, key: Seq<char>) -> ConfigValue {
    match sys.config {
        Some(c) => value_from(c.text@, key, 0),
        None => ConfigValue::Missing,
    }
}

pub fn read_config(sys: &SystemSnapshot) -> (r: Option<&str>)
    ensures
        match r {
            Some(t) => spec_config_text(sys) == Some(t@),
            None => spec_config_text(sys) is None,
        },
{
    match &sys.config {
        Some(c) => Some(c.text.as_str()),
        None => None,
    }
}

pub fn cfg_val(sys: &SystemSnapshot, key: &str) -> (r: ConfigValue)
    ensures
        r == spec_cfg_val(sys, key@),
{
    match &sys.config {
        Some(c) => config_value(c.text.as_str(), key),
        None => ConfigValue::Missing,
    }
}

pub fn cfg_present(sys: &SystemSnapshot) -> (r: bool)
    ensures
        r == sys.config is Some,
{
    sys.config.is_some()
}

/// Whether the mount table lists a mount at `path`.
pub open spec fn spec_mount_ok(sys: &SystemSnapshot, path: Seq<char>) -> bool {
    mounted_from(sys.mounts@, path, 0)
}

pub fn mount_at(sys: &SystemSnapshot, path: &str) -> (r: bool)
    ensures
        r == spec_mount_ok(sys, path@),
{
    mount_ok(sys.mounts.as_str(), path)
}

} // verus!
