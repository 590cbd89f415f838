//! Dummy target for safe livepatch testing: an isolated function with a
//! known return value, and its replacement with another known value.
use vstd::prelude::*;

verus! {

/// Return value of the unpatched function.
pub const DUMMY_ORIGINAL_VALUE: u64 = 42;

/// Return value of the patched function.
pub const DUMMY_PATCHED_VALUE: u64 = 99;

/// The dummy target function, safe to patch; returns 42 unpatched.
pub fn zenvecha_dummy_func() -> (r: u64)
    ensures
        r == DUMMY_ORIGINAL_VALUE,
{
    DUMMY_ORIGINAL_VALUE
}

/// The replacement function; returns 99.
pub fn zenvecha_dummy_patched() -> (r: u64)
    ensures
        r == DUMMY_PATCHED_VALUE,
{
    DUMMY_PATCHED_VALUE
}

/// Checks the patch by calling the target and comparing with the patched
/// value. Without a live patch in place the target answers 42, so this
/// build reports "not patched".
pub fn verify_patch() -> (r: bool)
    ensures
        r == (DUMMY_ORIGINAL_VALUE == DUMMY_PATCHED_VALUE),
        !r,
{
    zenvecha_dummy_func() == DUMMY_PATCHED_VALUE
}

/// Dummy target metadata exposed via proc.
pub struct DummyTargetInfo {
    pub name: &'static str,
    pub address: usize,
    pub original_value: u64,
    pub patched_value: u64,
    pub is_patched: bool,
}

impl DummyTargetInfo {
    /// Metadata of the dummy target loaded at `address` (the address of
    /// [`zenvecha_dummy_func`], which the caller takes).
    pub fn new(address: usize) -> (r: Self)
        ensures
            r.name@ == "zenvecha_dummy_func"@,
            r.address == address,
            r.original_value == DUMMY_ORIGINAL_VALUE,
            r.patched_value == DUMMY_PATCHED_VALUE,
            r.is_patched == (DUMMY_ORIGINAL_VALUE == DUMMY_PATCHED_VALUE),
    {
        DummyTargetInfo {
            name: "zenvecha_dummy_func",
            address,
            original_value: DUMMY_ORIGINAL_VALUE,
            patched_value: DUMMY_PATCHED_VALUE,
            is_patched: verify_patch(),
        }
    }
}

} // verus!
