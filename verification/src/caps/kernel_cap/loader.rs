//! Module loader reported by the kernel module (entry `modules.loader`).
use crate::capability::Capability;
use crate::caps::kernel_cap::{kernel_text, text_view};
use crate::evidence::{Evidence, EvidenceView};
use crate::snapshot::SystemSnapshot;
use vstd::prelude::*;

verus! {

/// The module loader state.
pub struct KernelModuleLoader;

impl Capability for KernelModuleLoader {
    open spec fn spec_id(&self) -> Seq<char> {
        "kernel.loader.module"@
    }

    open spec fn spec_label(&self) -> Seq<char> {
        "Module Loader (module)"@
    }

    open spec fn spec_probe(&self, sys: &SystemSnapshot) -> EvidenceView {
        text_view(sys, "kernel.loader.module"@, "modules.loader"@)
    }

    fn id(&self) -> &'static str {
        "kernel.loader.module"
    }

    fn label(&self) -> &'static str {
        "Module Loader (module)"
    }

    fn probe(&self, sys: &SystemSnapshot) -> Evidence {
        kernel_text(sys, self.id(), "modules.loader")
    }
}

} // verus!
