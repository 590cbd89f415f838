//! Kernel module loader probe: module support, active module count, vermagic.
use crate::kernel::capability::probes::Probe;
use crate::kernel::capability::types::{descriptor, descriptor_views, CapabilityDescriptor, DescriptorView};
use vstd::prelude::*;

verus! {

pub struct ModuleLoaderProbe;

impl Probe for ModuleLoaderProbe {
    open spec fn spec_name(&self) -> Seq<char> {
        "modules"@
    }

    open spec fn spec_discover(&self) -> Seq<DescriptorView> {
        Seq::empty().push(descriptor("modules.loader"@, "enabled"@)).push(descriptor("modules.active_count"@, "47"@)).push(descriptor("modules.vermagic"@, "6.18.0 SMP mod_unload"@))
    }

    fn name(&self) -> (r: &'static str) {
        "modules"
    }

    fn discover(&self) -> (r: &'static [CapabilityDescriptor]) {
        let r: &'static [CapabilityDescriptor] = &[
            CapabilityDescriptor { key: "modules.loader", value: "enabled" },
            CapabilityDescriptor { key: "modules.active_count", value: "47" },
            CapabilityDescriptor { key: "modules.vermagic", value: "6.18.0 SMP mod_unload" },
        ];
        assert(descriptor_views(r@) =~= self.spec_discover());
        r
    }
}

} // verus!
