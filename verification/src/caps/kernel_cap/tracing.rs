//! Tracing infrastructure reported by the kernel module: ftrace and kprobes.
use crate::capability::Capability;
use crate::caps::kernel_cap::{flag_view, kernel_flag};
use crate::evidence::{Evidence, EvidenceView};
use crate::snapshot::SystemSnapshot;
use vstd::prelude::*;

verus! {

/// ftrace is available: the entry says `available`.
pub struct KernelTracingFtrace;

impl Capability for KernelTracingFtrace {
    open spec fn spec_id(&self) -> Seq<char> {
        "kernel.tracing.ftrace"@
    }

    open spec fn spec_label(&self) -> Seq<char> {
        "ftrace (kernel)"@
    }

    open spec fn spec_probe(&self, sys: &SystemSnapshot) -> EvidenceView {
        flag_view(sys, "kernel.tracing.ftrace"@, "tracing.ftrace"@, "available"@)
    }

    fn id(&self) -> &'static str {
        "kernel.tracing.ftrace"
    }

    fn label(&self) -> &'static str {
        "ftrace (kernel)"
    }

    fn probe(&self, sys: &SystemSnapshot) -> Evidence {
        kernel_flag(sys, self.id(), "tracing.ftrace", "available")
    }
}

/// kprobes are available: the entry says `available`.
pub struct KernelTracingKprobes;

impl Capability for KernelTracingKprobes {
    open spec fn spec_id(&self) -> Seq<char> {
        "kernel.tracing.kprobes"@
    }

    open spec fn spec_label(&self) -> Seq<char> {
        "kprobes (kernel)"@
    }

    open spec fn spec_probe(&self, sys: &SystemSnapshot) -> EvidenceView {
        flag_view(sys, "kernel.tracing.kprobes"@, "tracing.kprobes"@, "available"@)
    }

    fn id(&self) -> &'static str {
        "kernel.tracing.kprobes"
    }

    fn label(&self) -> &'static str {
        "kprobes (kernel)"
    }

    fn probe(&self, sys: &SystemSnapshot) -> Evidence {
        kernel_flag(sys, self.id(), "tracing.kprobes", "available")
    }
}

} // verus!
