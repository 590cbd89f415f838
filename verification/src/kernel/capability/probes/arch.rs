//! CPU architecture probe: name, word width, endianness, page size.
use crate::kernel::capability::probes::Probe;
use crate::kernel::capability::types::{descriptor, descriptor_views, CapabilityDescriptor, DescriptorView};
use vstd::prelude::*;

verus! {

pub struct ArchitectureProbe;

impl Probe for ArchitectureProbe {
    open spec fn spec_name(&self) -> Seq<char> {
        "architecture"@
    }

    open spec fn spec_discover(&self) -> Seq<DescriptorView> {
        Seq::empty().push(descriptor("arch.name"@, "x86_64"@)).push(descriptor("arch.bits"@, "64"@)).push(descriptor("arch.endian"@, "little"@)).push(descriptor("arch.page_size"@, "4096"@))
    }

    fn name(&self) -> (r: &'static str) {
        "architecture"
    }

    fn discover(&self) -> (r: &'static [CapabilityDescriptor]) {
        let r: &'static [CapabilityDescriptor] = &[
            CapabilityDescriptor { key: "arch.name", value: "x86_64" },
            CapabilityDescriptor { key: "arch.bits", value: "64" },
            CapabilityDescriptor { key: "arch.endian", value: "little" },
            CapabilityDescriptor { key: "arch.page_size", value: "4096" },
        ];
        assert(descriptor_views(r@) =~= self.spec_discover());
        r
    }
}

} // verus!
