//! Tracing infrastructure probe: ftrace, kprobes, kretprobes, tracepoints, uprobes.
use crate::kernel::capability::probes::Probe;
use crate::kernel::capability::types::{descriptor, descriptor_views, CapabilityDescriptor, DescriptorView};
use vstd::prelude::*;

verus! {

pub struct TracingProbe;

impl Probe for TracingProbe {
    open spec fn spec_name(&self) -> Seq<char> {
        "tracing"@
    }

    open spec fn spec_discover(&self) -> Seq<DescriptorView> {
        Seq::empty().push(descriptor("tracing.ftrace"@, "available"@)).push(descriptor("tracing.kprobes"@, "available"@)).push(descriptor("tracing.kretprobes"@, "available"@)).push(descriptor("tracing.tracepoints"@, "available"@)).push(descriptor("tracing.uprobes"@, "available"@))
    }

    fn name(&self) -> (r: &'static str) {
        "tracing"
    }

    fn discover(&self) -> (r: &'static [CapabilityDescriptor]) {
        let r: &'static [CapabilityDescriptor] = &[
            CapabilityDescriptor { key: "tracing.ftrace", value: "available" },
            CapabilityDescriptor { key: "tracing.kprobes", value: "available" },
            CapabilityDescriptor { key: "tracing.kretprobes", value: "available" },
            CapabilityDescriptor { key: "tracing.tracepoints", value: "available" },
            CapabilityDescriptor { key: "tracing.uprobes", value: "available" },
        ];
        assert(descriptor_views(r@) =~= self.spec_discover());
        r
    }
}

} // verus!
