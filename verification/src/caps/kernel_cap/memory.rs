//! Memory subsystem facts reported by the kernel module.
use crate::capability::Capability;
use crate::caps::kernel_cap::{kernel_text, text_view};
use crate::evidence::{Evidence, EvidenceView};
use crate::snapshot::SystemSnapshot;
use vstd::prelude::*;

verus! {

/// Page size in bytes.
pub struct KernelPageSize;

impl Capability for KernelPageSize {
    open spec fn spec_id(&self) -> Seq<char> {
        "kernel.memory.page_size"@
    }

    open spec fn spec_label(&self) -> Seq<char> {
        "Page Size (module)"@
    }

    open spec fn spec_probe(&self, sys: &SystemSnapshot) -> EvidenceView {
        text_view(sys, "kernel.memory.page_size"@, "memory.page_size"@)
    }

    fn id(&self) -> &'static str {
        "kernel.memory.page_size"
    }

    fn label(&self) -> &'static str {
        "Page Size (module)"
    }

    fn probe(&self, sys: &SystemSnapshot) -> Evidence {
        kernel_text(sys, self.id(), "memory.page_size")
    }
}

/// Available huge page sizes (e.g. "2M,1G").
pub struct KernelHugePages;

impl Capability for KernelHugePages {
    open spec fn spec_id(&self) -> Seq<char> {
        "kernel.memory.hugepages"@
    }

    open spec fn spec_label(&self) -> Seq<char> {
        "Huge Pages (module)"@
    }

    open spec fn spec_probe(&self, sys: &SystemSnapshot) -> EvidenceView {
        text_view(sys, "kernel.memory.hugepages"@, "memory.hugepages"@)
    }

    fn id(&self) -> &'static str {
        "kernel.memory.hugepages"
    }

    fn label(&self) -> &'static str {
        "Huge Pages (module)"
    }

    fn probe(&self, sys: &SystemSnapshot) -> Evidence {
        kernel_text(sys, self.id(), "memory.hugepages")
    }
}

/// Memory model (e.g. SPARSEMEM, FLATMEM).
pub struct KernelMemoryModel;

impl Capability for KernelMemoryModel {
    open spec fn spec_id(&self) -> Seq<char> {
        "kernel.memory.model"@
    }

    open spec fn spec_label(&self) -> Seq<char> {
        "Memory Model (module)"@
    }

    open spec fn spec_probe(&self, sys: &SystemSnapshot) -> EvidenceView {
        text_view(sys, "kernel.memory.model"@, "memory.model"@)
    }

    fn id(&self) -> &'static str {
        "kernel.memory.model"
    }

    fn label(&self) -> &'static str {
        "Memory Model (module)"
    }

    fn probe(&self, sys: &SystemSnapshot) -> Evidence {
        kernel_text(sys, self.id(), "memory.model")
    }
}

} // verus!
