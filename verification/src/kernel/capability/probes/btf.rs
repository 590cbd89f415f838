//! BTF (BPF Type Format) availability probe.
use crate::kernel::capability::probes::Probe;
use crate::kernel::capability::types::{descriptor, descriptor_views, CapabilityDescriptor, DescriptorView};
use vstd::prelude::*;

verus! {

pub struct BtfProbe;

impl Probe for BtfProbe {
    open spec fn spec_name(&self) -> Seq<char> {
        "btf"@
    }

    open spec fn spec_discover(&self) -> Seq<DescriptorView> {
        Seq::empty().push(descriptor("btf.available"@, "yes"@)).push(descriptor("btf.vmlinux"@, "available"@))
    }

    fn name(&self) -> (r: &'static str) {
        "btf"
    }

    fn discover(&self) -> (r: &'static [CapabilityDescriptor]) {
        let r: &'static [CapabilityDescriptor] = &[
            CapabilityDescriptor { key: "btf.available", value: "yes" },
            CapabilityDescriptor { key: "btf.vmlinux", value: "available" },
        ];
        assert(descriptor_views(r@) =~= self.spec_discover());
        r
    }
}

} // verus!
