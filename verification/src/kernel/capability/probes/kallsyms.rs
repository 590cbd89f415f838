//! kallsyms availability probe.
use crate::kernel::capability::probes::Probe;
use crate::kernel::capability::types::{descriptor, descriptor_views, CapabilityDescriptor, DescriptorView};
use vstd::prelude::*;

verus! {

pub struct KallsymsProbe;

impl Probe for KallsymsProbe {
    open spec fn spec_name(&self) -> Seq<char> {
        "kallsyms"@
    }

    open spec fn spec_discover(&self) -> Seq<DescriptorView> {
        Seq::empty().push(descriptor("kallsyms.available"@, "yes"@)).push(descriptor("kallsyms.all_symbols"@, "yes"@)).push(descriptor("kallsyms.base_address"@, "0xffffff8000000000"@))
    }

    fn name(&self) -> (r: &'static str) {
        "kallsyms"
    }

    fn discover(&self) -> (r: &'static [CapabilityDescriptor]) {
        let r: &'static [CapabilityDescriptor] = &[
            CapabilityDescriptor { key: "kallsyms.available", value: "yes" },
            CapabilityDescriptor { key: "kallsyms.all_symbols", value: "yes" },
            CapabilityDescriptor { key: "kallsyms.base_address", value: "0xffffff8000000000" },
        ];
        assert(descriptor_views(r@) =~= self.spec_discover());
        r
    }
}

} // verus!
