//! BTF status reported by the kernel module (entry `btf.available`).
use crate::capability::Capability;
use crate::caps::kernel_cap::{flag_view, kernel_flag};
use crate::evidence::{Evidence, EvidenceView};
use crate::snapshot::SystemSnapshot;
use vstd::prelude::*;

verus! {

/// BTF is available: the entry says `yes`.
pub struct KernelBtfStatus;

impl Capability for KernelBtfStatus {
    open spec fn spec_id(&self) -> Seq<char> {
        "kernel.btf.module"@
    }

    open spec fn spec_label(&self) -> Seq<char> {
        "BTF Status (module)"@
    }

    open spec fn spec_probe(&self, sys: &SystemSnapshot) -> EvidenceView {
        flag_view(sys, "kernel.btf.module"@, "btf.available"@, "yes"@)
    }

    fn id(&self) -> &'static str {
        "kernel.btf.module"
    }

    fn label(&self) -> &'static str {
        "BTF Status (module)"
    }

    fn probe(&self, sys: &SystemSnapshot) -> Evidence {
        kernel_flag(sys, self.id(), "btf.available", "yes")
    }
}

} // verus!
