//! Kernel release reported by the kernel module (entry `version.release`).
use crate::capability::Capability;
use crate::caps::kernel_cap::{kernel_text, text_view};
use crate::evidence::{Evidence, EvidenceView};
use crate::snapshot::SystemSnapshot;
use vstd::prelude::*;

verus! {

/// The running kernel release.
pub struct KernelVersionFromModule;

impl Capability for KernelVersionFromModule {
    open spec fn spec_id(&self) -> Seq<char> {
        "kernel.version.module"@
    }

    open spec fn spec_label(&self) -> Seq<char> {
        "Kernel Version (module)"@
    }

    open spec fn spec_probe(&self, sys: &SystemSnapshot) -> EvidenceView {
        text_view(sys, "kernel.version.module"@, "version.release"@)
    }

    fn id(&self) -> &'static str {
        "kernel.version.module"
    }

    fn label(&self) -> &'static str {
        "Kernel Version (module)"
    }

    fn probe(&self, sys: &SystemSnapshot) -> Evidence {
        kernel_text(sys, self.id(), "version.release")
    }
}

} // verus!
