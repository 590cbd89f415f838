//! Tracepoint facts reported by the kernel module.
use crate::capability::Capability;
use crate::caps::kernel_cap::{kernel_text, text_view};
use crate::evidence::{Evidence, EvidenceView};
use crate::snapshot::SystemSnapshot;
use vstd::prelude::*;

verus! {

/// Total tracepoint count.
pub struct KernelTracepointCount;

impl Capability for KernelTracepointCount {
    open spec fn spec_id(&self) -> Seq<char> {
        "kernel.tracepoints.count"@
    }

    open spec fn spec_label(&self) -> Seq<char> {
        "Tracepoint Count (module)"@
    }

    open spec fn spec_probe(&self, sys: &SystemSnapshot) -> EvidenceView {
        text_view(sys, "kernel.tracepoints.count"@, "tracepoints.count"@)
    }

    fn id(&self) -> &'static str {
        "kernel.tracepoints.count"
    }

    fn label(&self) -> &'static str {
        "Tracepoint Count (module)"
    }

    fn probe(&self, sys: &SystemSnapshot) -> Evidence {
        kernel_text(sys, self.id(), "tracepoints.count")
    }
}

/// Tracepoint subsystems (e.g. "sched,block,net,irq").
pub struct KernelTracepointSubsystems;

impl Capability for KernelTracepointSubsystems {
    open spec fn spec_id(&self) -> Seq<char> {
        "kernel.tracepoints.subsystems"@
    }

    open spec fn spec_label(&self) -> Seq<char> {
        "Tracepoint Subsystems (module)"@
    }

    open spec fn spec_probe(&self, sys: &SystemSnapshot) -> EvidenceView {
        text_view(sys, "kernel.tracepoints.subsystems"@, "tracepoints.subsystems"@)
    }

    fn id(&self) -> &'static str {
        "kernel.tracepoints.subsystems"
    }

    fn label(&self) -> &'static str {
        "Tracepoint Subsystems (module)"
    }

    fn probe(&self, sys: &SystemSnapshot) -> Evidence {
        kernel_text(sys, self.id(), "tracepoints.subsystems")
    }
}

} // verus!
