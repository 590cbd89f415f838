//! Scheduler facts reported by the kernel module.
use crate::capability::Capability;
use crate::caps::kernel_cap::{kernel_text, text_view};
use crate::evidence::{Evidence, EvidenceView};
use crate::snapshot::SystemSnapshot;
use vstd::prelude::*;

verus! {

/// Available scheduling classes (e.g. "cfs,rt,deadline").
pub struct KernelSchedulerClasses;

impl Capability for KernelSchedulerClasses {
    open spec fn spec_id(&self) -> Seq<char> {
        "kernel.scheduler.classes"@
    }

    open spec fn spec_label(&self) -> Seq<char> {
        "Scheduler Classes (module)"@
    }

    open spec fn spec_probe(&self, sys: &SystemSnapshot) -> EvidenceView {
        text_view(sys, "kernel.scheduler.classes"@, "scheduler.classes"@)
    }

    fn id(&self) -> &'static str {
        "kernel.scheduler.classes"
    }

    fn label(&self) -> &'static str {
        "Scheduler Classes (module)"
    }

    fn probe(&self, sys: &SystemSnapshot) -> Evidence {
        kernel_text(sys, self.id(), "scheduler.classes")
    }
}

/// Preemption model ("none", "voluntary" or "full").
pub struct KernelPreemption;

impl Capability for KernelPreemption {
    open spec fn spec_id(&self) -> Seq<char> {
        "kernel.scheduler.preemption"@
    }

    open spec fn spec_label(&self) -> Seq<char> {
        "Preemption Model (module)"@
    }

    open spec fn spec_probe(&self, sys: &SystemSnapshot) -> EvidenceView {
        text_view(sys, "kernel.scheduler.preemption"@, "scheduler.preemption"@)
    }

    fn id(&self) -> &'static str {
        "kernel.scheduler.preemption"
    }

    fn label(&self) -> &'static str {
        "Preemption Model (module)"
    }

    fn probe(&self, sys: &SystemSnapshot) -> Evidence {
        kernel_text(sys, self.id(), "scheduler.preemption")
    }
}

} // verus!
