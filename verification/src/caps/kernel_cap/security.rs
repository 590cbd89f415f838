//! Kernel security facts reported by the kernel module: lockdown, LSMs, KASLR.
use crate::capability::Capability;
use crate::caps::kernel_cap::{bool_view, kernel_bool, kernel_text, text_view};
use crate::evidence::{Evidence, EvidenceView};
use crate::snapshot::SystemSnapshot;
use vstd::prelude::*;

verus! {

/// Kernel lockdown mode ("none", "integrity" or "confidentiality").
pub struct KernelLockdown;

impl Capability for KernelLockdown {
    open spec fn spec_id(&self) -> Seq<char> {
        "kernel.security.lockdown"@
    }

    open spec fn spec_label(&self) -> Seq<char> {
        "Kernel Lockdown (module)"@
    }

    open spec fn spec_probe(&self, sys: &SystemSnapshot) -> EvidenceView {
        text_view(sys, "kernel.security.lockdown"@, "security.lockdown"@)
    }

    fn id(&self) -> &'static str {
        "kernel.security.lockdown"
    }

    fn label(&self) -> &'static str {
        "Kernel Lockdown (module)"
    }

    fn probe(&self, sys: &SystemSnapshot) -> Evidence {
        kernel_text(sys, self.id(), "security.lockdown")
    }
}

/// Active Linux security modules (e.g. "selinux,apparmor,bpf").
pub struct KernelActiveLsms;

impl Capability for KernelActiveLsms {
    open spec fn spec_id(&self) -> Seq<char> {
        "kernel.security.lsms"@
    }

    open spec fn spec_label(&self) -> Seq<char> {
        "Active LSMs (module)"@
    }

    open spec fn spec_probe(&self, sys: &SystemSnapshot) -> EvidenceView {
        text_view(sys, "kernel.security.lsms"@, "security.lsms"@)
    }

    fn id(&self) -> &'static str {
        "kernel.security.lsms"
    }

    fn label(&self) -> &'static str {
        "Active LSMs (module)"
    }

    fn probe(&self, sys: &SystemSnapshot) -> Evidence {
        kernel_text(sys, self.id(), "security.lsms")
    }
}

/// Kernel address space layout randomization is on: the entry says `yes`.
pub struct KernelKaslr;

impl Capability for KernelKaslr {
    open spec fn spec_id(&self) -> Seq<char> {
        "kernel.security.kaslr"@
    }

    open spec fn spec_label(&self) -> Seq<char> {
        "KASLR Status (module)"@
    }

    open spec fn spec_probe(&self, sys: &SystemSnapshot) -> EvidenceView {
        bool_view(sys, "kernel.security.kaslr"@, "security.kaslr"@)
    }

    fn id(&self) -> &'static str {
        "kernel.security.kaslr"
    }

    fn label(&self) -> &'static str {
        "KASLR Status (module)"
    }

    fn probe(&self, sys: &SystemSnapshot) -> Evidence {
        kernel_bool(sys, self.id(), "security.kaslr")
    }
}

} // verus!
