//! Kernel symbol facts reported by the kernel module: the symbol count
//! (entry `symbols.count`) and the symbol discovery entries `symbols.*`.
use crate::capability::Capability;
use crate::caps::kernel_cap::{kernel_text, text_view};
use crate::evidence::{Evidence, EvidenceView};
use crate::snapshot::SystemSnapshot;
use vstd::prelude::*;

verus! {

/// The number of kernel symbols.
pub struct KernelSymbolCount;

impl Capability for KernelSymbolCount {
    open spec fn spec_id(&self) -> Seq<char> {
        "kernel.symbols.module"@
    }

    open spec fn spec_label(&self) -> Seq<char> {
        "Kernel Symbols (module)"@
    }

    open spec fn spec_probe(&self, sys: &SystemSnapshot) -> EvidenceView {
        text_view(sys, "kernel.symbols.module"@, "symbols.count"@)
    }

    fn id(&self) -> &'static str {
        "kernel.symbols.module"
    }

    fn label(&self) -> &'static str {
        "Kernel Symbols (module)"
    }

    fn probe(&self, sys: &SystemSnapshot) -> Evidence {
        kernel_text(sys, self.id(), "symbols.count")
    }
}

/// Total number of kernel symbols (entry `symbols.total`), as text.
pub struct KernelSymbolTotal;

impl Capability for KernelSymbolTotal {
    open spec fn spec_id(&self) -> Seq<char> {
        "kernel.symbols.total"@
    }

    open spec fn spec_label(&self) -> Seq<char> {
        "Total Symbols"@
    }

    open spec fn spec_probe(&self, sys: &SystemSnapshot) -> EvidenceView {
        text_view(sys, "kernel.symbols.total"@, "symbols.total"@)
    }

    fn id(&self) -> &'static str {
        "kernel.symbols.total"
    }

    fn label(&self) -> &'static str {
        "Total Symbols"
    }

    fn probe(&self, sys: &SystemSnapshot) -> Evidence {
        kernel_text(sys, self.id(), "symbols.total")
    }
}

/// Number of exported symbols (entry `symbols.exported`), as text.
pub struct KernelSymbolExported;

impl Capability for KernelSymbolExported {
    open spec fn spec_id(&self) -> Seq<char> {
        "kernel.symbols.exported"@
    }

    open spec fn spec_label(&self) -> Seq<char> {
        "Exported Symbols"@
    }

    open spec fn spec_probe(&self, sys: &SystemSnapshot) -> EvidenceView {
        text_view(sys, "kernel.symbols.exported"@, "symbols.exported"@)
    }

    fn id(&self) -> &'static str {
        "kernel.symbols.exported"
    }

    fn label(&self) -> &'static str {
        "Exported Symbols"
    }

    fn probe(&self, sys: &SystemSnapshot) -> Evidence {
        kernel_text(sys, self.id(), "symbols.exported")
    }
}

/// Number of symbols exported to GPL modules only (entry `symbols.gpl_only`), as text.
pub struct KernelSymbolGplOnly;

impl Capability for KernelSymbolGplOnly {
    open spec fn spec_id(&self) -> Seq<char> {
        "kernel.symbols.gpl_only"@
    }

    open spec fn spec_label(&self) -> Seq<char> {
        "GPL-only Symbols"@
    }

    open spec fn spec_probe(&self, sys: &SystemSnapshot) -> EvidenceView {
        text_view(sys, "kernel.symbols.gpl_only"@, "symbols.gpl_only"@)
    }

    fn id(&self) -> &'static str {
        "kernel.symbols.gpl_only"
    }

    fn label(&self) -> &'static str {
        "GPL-only Symbols"
    }

    fn probe(&self, sys: &SystemSnapshot) -> Evidence {
        kernel_text(sys, self.id(), "symbols.gpl_only")
    }
}

/// Number of internal (not exported) symbols (entry `symbols.internal`), as text.
pub struct KernelSymbolInternal;

impl Capability for KernelSymbolInternal {
    open spec fn spec_id(&self) -> Seq<char> {
        "kernel.symbols.internal"@
    }

    open spec fn spec_label(&self) -> Seq<char> {
        "Internal Symbols"@
    }

    open spec fn spec_probe(&self, sys: &SystemSnapshot) -> EvidenceView {
        text_view(sys, "kernel.symbols.internal"@, "symbols.internal"@)
    }

    fn id(&self) -> &'static str {
        "kernel.symbols.internal"
    }

    fn label(&self) -> &'static str {
        "Internal Symbols"
    }

    fn probe(&self, sys: &SystemSnapshot) -> Evidence {
        kernel_text(sys, self.id(), "symbols.internal")
    }
}

/// Number of symbols owned by loaded modules (entry `symbols.module_owned`), as text.
pub struct KernelSymbolModuleOwned;

impl Capability for KernelSymbolModuleOwned {
    open spec fn spec_id(&self) -> Seq<char> {
        "kernel.symbols.module_owned"@
    }

    open spec fn spec_label(&self) -> Seq<char> {
        "Module-owned Symbols"@
    }

    open spec fn spec_probe(&self, sys: &SystemSnapshot) -> EvidenceView {
        text_view(sys, "kernel.symbols.module_owned"@, "symbols.module_owned"@)
    }

    fn id(&self) -> &'static str {
        "kernel.symbols.module_owned"
    }

    fn label(&self) -> &'static str {
        "Module-owned Symbols"
    }

    fn probe(&self, sys: &SystemSnapshot) -> Evidence {
        kernel_text(sys, self.id(), "symbols.module_owned")
    }
}

/// Number of symbols of the kernel image (entry `symbols.vmlinux`), as text.
pub struct KernelSymbolVmlinux;

impl Capability for KernelSymbolVmlinux {
    open spec fn spec_id(&self) -> Seq<char> {
        "kernel.symbols.vmlinux"@
    }

    open spec fn spec_label(&self) -> Seq<char> {
        "vmlinux Symbols"@
    }

    open spec fn spec_probe(&self, sys: &SystemSnapshot) -> EvidenceView {
        text_view(sys, "kernel.symbols.vmlinux"@, "symbols.vmlinux"@)
    }

    fn id(&self) -> &'static str {
        "kernel.symbols.vmlinux"
    }

    fn label(&self) -> &'static str {
        "vmlinux Symbols"
    }

    fn probe(&self, sys: &SystemSnapshot) -> Evidence {
        kernel_text(sys, self.id(), "symbols.vmlinux")
    }
}

/// Number of symbols exported in a namespace (entry `symbols.namespaced`), as text.
pub struct KernelSymbolNamespaced;

impl Capability for KernelSymbolNamespaced {
    open spec fn spec_id(&self) -> Seq<char> {
        "kernel.symbols.namespaced"@
    }

    open spec fn spec_label(&self) -> Seq<char> {
        "Namespaced Symbols"@
    }

    open spec fn spec_probe(&self, sys: &SystemSnapshot) -> EvidenceView {
        text_view(sys, "kernel.symbols.namespaced"@, "symbols.namespaced"@)
    }

    fn id(&self) -> &'static str {
        "kernel.symbols.namespaced"
    }

    fn label(&self) -> &'static str {
        "Namespaced Symbols"
    }

    fn probe(&self, sys: &SystemSnapshot) -> Evidence {
        kernel_text(sys, self.id(), "symbols.namespaced")
    }
}

/// Whether kallsyms is available (entry `symbols.kallsyms`), as text.
pub struct KernelSymbolKallsyms;

impl Capability for KernelSymbolKallsyms {
    open spec fn spec_id(&self) -> Seq<char> {
        "kernel.symbols.kallsyms"@
    }

    open spec fn spec_label(&self) -> Seq<char> {
        "kallsyms Status"@
    }

    open spec fn spec_probe(&self, sys: &SystemSnapshot) -> EvidenceView {
        text_view(sys, "kernel.symbols.kallsyms"@, "symbols.kallsyms"@)
    }

    fn id(&self) -> &'static str {
        "kernel.symbols.kallsyms"
    }

    fn label(&self) -> &'static str {
        "kallsyms Status"
    }

    fn probe(&self, sys: &SystemSnapshot) -> Evidence {
        kernel_text(sys, self.id(), "symbols.kallsyms")
    }
}

/// Whether kallsyms covers all symbols (entry `symbols.kallsyms_all`), as text.
pub struct KernelSymbolKallsymsAll;

impl Capability for KernelSymbolKallsymsAll {
    open spec fn spec_id(&self) -> Seq<char> {
        "kernel.symbols.kallsyms_all"@
    }

    open spec fn spec_label(&self) -> Seq<char> {
        "kallsyms All Symbols"@
    }

    open spec fn spec_probe(&self, sys: &SystemSnapshot) -> EvidenceView {
        text_view(sys, "kernel.symbols.kallsyms_all"@, "symbols.kallsyms_all"@)
    }

    fn id(&self) -> &'static str {
        "kernel.symbols.kallsyms_all"
    }

    fn label(&self) -> &'static str {
        "kallsyms All Symbols"
    }

    fn probe(&self, sys: &SystemSnapshot) -> Evidence {
        kernel_text(sys, self.id(), "symbols.kallsyms_all")
    }
}

/// The kptr_restrict level (entry `symbols.kptr_restrict`), as text.
pub struct KernelSymbolKptrRestrict;

impl Capability for KernelSymbolKptrRestrict {
    open spec fn spec_id(&self) -> Seq<char> {
        "kernel.symbols.kptr_restrict"@
    }

    open spec fn spec_label(&self) -> Seq<char> {
        "kptr_restrict"@
    }

    open spec fn spec_probe(&self, sys: &SystemSnapshot) -> EvidenceView {
        text_view(sys, "kernel.symbols.kptr_restrict"@, "symbols.kptr_restrict"@)
    }

    fn id(&self) -> &'static str {
        "kernel.symbols.kptr_restrict"
    }

    fn label(&self) -> &'static str {
        "kptr_restrict"
    }

    fn probe(&self, sys: &SystemSnapshot) -> Evidence {
        kernel_text(sys, self.id(), "symbols.kptr_restrict")
    }
}

/// State of the module's symbol collection (entry `symbols.collection_status`), as text.
pub struct KernelSymbolCollection;

impl Capability for KernelSymbolCollection {
    open spec fn spec_id(&self) -> Seq<char> {
        "kernel.symbols.collection"@
    }

    open spec fn spec_label(&self) -> Seq<char> {
        "Symbol Collection"@
    }

    open spec fn spec_probe(&self, sys: &SystemSnapshot) -> EvidenceView {
        text_view(sys, "kernel.symbols.collection"@, "symbols.collection_status"@)
    }

    fn id(&self) -> &'static str {
        "kernel.symbols.collection"
    }

    fn label(&self) -> &'static str {
        "Symbol Collection"
    }

    fn probe(&self, sys: &SystemSnapshot) -> Evidence {
        kernel_text(sys, self.id(), "symbols.collection_status")
    }
}

} // verus!
