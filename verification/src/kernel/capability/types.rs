//! Structured kernel capability types.
//!
//! Two layers: `CapabilityDescriptor`, the compile-time contract of what a
//! probe discovers, and `ProbeResult`, the runtime data of what was found.
//! No rendering, scoring or formatting.
use vstd::prelude::*;

verus! {

/// Compile-time capability descriptor: what a probe discovers.
pub struct CapabilityDescriptor {
    pub key: &'static str,
    pub value: &'static str,
}

pub struct DescriptorView {
    pub key: Seq<char>,
    pub value: Seq<char>,
}

impl View for CapabilityDescriptor {
    type V = DescriptorView;

    open spec fn view(&self) -> DescriptorView {
        DescriptorView { key: self.key@, value: self.value@ }
    }
}

pub open spec fn descriptor(key: Seq<char>, value: Seq<char>) -> DescriptorView {
    DescriptorView { key, value }
}

pub open spec fn descriptor_views(s: Seq<CapabilityDescriptor>) -> Seq<DescriptorView> {
    s.map_values(|d: CapabilityDescriptor| d@)
}

/// Result of one capability probe at runtime.
#[derive(Clone, Debug)]
pub struct ProbeResult {
    /// Key matching a capability descriptor.
    pub key: String,
    /// The discovered value; empty when the probe found nothing.
    pub value: String,
    /// Whether the probe succeeded, partially succeeded or failed.
    pub status: ProbeStatus,
    /// Error description when the probe failed.
    pub error: Option<String>,
}

/// Outcome of a capability probe.
#[derive(Clone, Copy, Debug, PartialEq, Eq, Structural)]
pub enum ProbeStatus {
    /// Completed; the data is reliable.
    Success,
    /// Ran, but the resource was unavailable (for example a disabled config).
    Unavailable,
    /// Recoverable error, partial data.
    Partial,
    /// Failed entirely.
    Failed,
}

impl ProbeStatus {
    pub open spec fn spec_label(self) -> Seq<char> {
        match self {
            ProbeStatus::Success => "success"@,
            ProbeStatus::Unavailable => "unavailable"@,
            ProbeStatus::Partial => "partial"@,
            ProbeStatus::Failed => "failed"@,
        }
    }

    pub fn label(self) -> (r: &'static str)
        ensures
            r@ == self.spec_label(),
    {
        match self {
            ProbeStatus::Success => "success",
            ProbeStatus::Unavailable => "unavailable",
            ProbeStatus::Partial => "partial",
            ProbeStatus::Failed => "failed",
        }
    }
}

/// All probe results of one discovery run.
pub struct ProbeResultSet {
    pub results: Vec<ProbeResult>,
}

/// A kernel symbol with its owner.
pub struct ExportedSymbol {
    pub name: String,
    pub address: usize,
    pub owner: Option<String>,
}

/// Capability categories the kernel module can discover.
pub enum CapabilityKind {
    Version,
    Symbols,
    Kallsyms,
    Btf,
    ModuleLoader,
    Tracing,
    Livepatch,
    RustSupport,
    Architecture,
    /// Reserved for future providers.
    Custom(&'static str),
}

} // verus!
