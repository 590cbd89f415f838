//! Kernel version probe: running kernel release and its major, minor and patch numbers.
use crate::kernel::capability::probes::Probe;
use crate::kernel::capability::types::{descriptor, descriptor_views, CapabilityDescriptor, DescriptorView};
use vstd::prelude::*;

verus! {

pub struct VersionProbe;

impl Probe for VersionProbe {
    open spec fn spec_name(&self) -> Seq<char> {
        "version"@
    }

    open spec fn spec_discover(&self) -> Seq<DescriptorView> {
        Seq::empty().push(descriptor("kernel.version.release"@, "6.18.0"@)).push(descriptor("kernel.version.major"@, "6"@)).push(descriptor("kernel.version.minor"@, "18"@)).push(descriptor("kernel.version.patch"@, "0"@))
    }

    fn name(&self) -> (r: &'static str) {
        "version"
    }

    fn discover(&self) -> (r: &'static [CapabilityDescriptor]) {
        let r: &'static [CapabilityDescriptor] = &[
            CapabilityDescriptor { key: "kernel.version.release", value: "6.18.0" },
            CapabilityDescriptor { key: "kernel.version.major", value: "6" },
            CapabilityDescriptor { key: "kernel.version.minor", value: "18" },
            CapabilityDescriptor { key: "kernel.version.patch", value: "0" },
        ];
        assert(descriptor_views(r@) =~= self.spec_discover());
        r
    }
}

} // verus!
