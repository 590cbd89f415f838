//! Presence of the zenvecha kernel module: it answers for `version.release`.
use crate::capability::Capability;
use crate::caps::kernel_cap::{kernel_status, status_view};
use crate::evidence::{Evidence, EvidenceView};
use crate::snapshot::SystemSnapshot;
use vstd::prelude::*;

verus! {

/// Whether the kernel module is loaded.
pub struct KernelModuleStatus;

impl Capability for KernelModuleStatus {
    open spec fn spec_id(&self) -> Seq<char> {
        "kernel.module_loaded"@
    }

    open spec fn spec_label(&self) -> Seq<char> {
        "Zenvecha Kernel Module"@
    }

    open spec fn spec_probe(&self, sys: &SystemSnapshot) -> EvidenceView {
        status_view(sys, "kernel.module_loaded"@, "version.release"@)
    }

    fn id(&self) -> &'static str {
        "kernel.module_loaded"
    }

    fn label(&self) -> &'static str {
        "Zenvecha Kernel Module"
    }

    fn probe(&self, sys: &SystemSnapshot) -> Evidence {
        kernel_status(sys, self.id(), "version.release")
    }
}

} // verus!
