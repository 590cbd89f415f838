//! Probe contract and registry.
//!
//! Every probe is read-only, isolated from the others, produces key=value
//! facts and never fails: an unavailable resource is reported, not raised.
pub mod arch;
pub mod btf;
pub mod kallsyms;
pub mod modules;
pub mod symbols;
pub mod tracing;
pub mod version;

use crate::kernel::capability::probes::version::VersionProbe;
use crate::kernel::capability::probes::symbols::SymbolsProbe;
use crate::kernel::capability::probes::kallsyms::KallsymsProbe;
use crate::kernel::capability::probes::btf::BtfProbe;
use crate::kernel::capability::probes::modules::ModuleLoaderProbe;
use crate::kernel::capability::probes::tracing::TracingProbe;
use crate::kernel::capability::probes::arch::ArchitectureProbe;
use crate::kernel::capability::types::{descriptor_views, CapabilityDescriptor, DescriptorView};
use vstd::prelude::*;

verus! {

/// Compile-time probe contract: what each probe discovers.
pub trait Probe {
    /// The probe's name, also its proc directory.
    spec fn spec_name(&self) -> Seq<char>;

    /// The descriptors the probe promises.
    spec fn spec_discover(&self) -> Seq<DescriptorView>;

    fn name(&self) -> (r: &'static str)
        ensures
            r@ == self.spec_name(),
    ;

    fn discover(&self) -> (r: &'static [CapabilityDescriptor])
        ensures
            descriptor_views(r@) == self.spec_discover(),
    ;
}

/// One of the kernel capability probes. A slice of trait objects carries no
/// facts Verus can use, so the registry lists the probes as this enum,
/// which is a [`Probe`] itself.
pub enum KernelProbe {
    Version(VersionProbe),
    Symbols(SymbolsProbe),
    Kallsyms(KallsymsProbe),
    Btf(BtfProbe),
    ModuleLoader(ModuleLoaderProbe),
    Tracing(TracingProbe),
    Architecture(ArchitectureProbe),
}

impl Probe for KernelProbe {
    open spec fn spec_name(&self) -> Seq<char> {
        match self {
            KernelProbe::Version(p) => p.spec_name(),
            KernelProbe::Symbols(p) => p.spec_name(),
            KernelProbe::Kallsyms(p) => p.spec_name(),
            KernelProbe::Btf(p) => p.spec_name(),
            KernelProbe::ModuleLoader(p) => p.spec_name(),
            KernelProbe::Tracing(p) => p.spec_name(),
            KernelProbe::Architecture(p) => p.spec_name(),
        }
    }

    open spec fn spec_discover(&self) -> Seq<DescriptorView> {
        match self {
            KernelProbe::Version(p) => p.spec_discover(),
            KernelProbe::Symbols(p) => p.spec_discover(),
            KernelProbe::Kallsyms(p) => p.spec_discover(),
            KernelProbe::Btf(p) => p.spec_discover(),
            KernelProbe::ModuleLoader(p) => p.spec_discover(),
            KernelProbe::Tracing(p) => p.spec_discover(),
            KernelProbe::Architecture(p) => p.spec_discover(),
        }
    }

    fn name(&self) -> (r: &'static str) {
        match self {
            KernelProbe::Version(p) => p.name(),
            KernelProbe::Symbols(p) => p.name(),
            KernelProbe::Kallsyms(p) => p.name(),
            KernelProbe::Btf(p) => p.name(),
            KernelProbe::ModuleLoader(p) => p.name(),
            KernelProbe::Tracing(p) => p.name(),
            KernelProbe::Architecture(p) => p.name(),
        }
    }

    fn discover(&self) -> (r: &'static [CapabilityDescriptor]) {
        match self {
            KernelProbe::Version(p) => p.discover(),
            KernelProbe::Symbols(p) => p.discover(),
            KernelProbe::Kallsyms(p) => p.discover(),
            KernelProbe::Btf(p) => p.discover(),
            KernelProbe::ModuleLoader(p) => p.discover(),
            KernelProbe::Tracing(p) => p.discover(),
            KernelProbe::Architecture(p) => p.discover(),
        }
    }
}

/// The probe names of a list of probes.
pub open spec fn probe_names(s: Seq<KernelProbe>) -> Seq<Seq<char>> {
    s.map_values(|p: KernelProbe| p.spec_name())
}

/// Registry of all kernel capability probes, in registration order:
/// version, symbols, kallsyms, BTF, module loader, tracing, architecture.
pub fn all_probes() -> (r: &'static [KernelProbe])
    ensures
        r@ == seq![
            KernelProbe::Version(VersionProbe),
            KernelProbe::Symbols(SymbolsProbe),
            KernelProbe::Kallsyms(KallsymsProbe),
            KernelProbe::Btf(BtfProbe),
            KernelProbe::ModuleLoader(ModuleLoaderProbe),
            KernelProbe::Tracing(TracingProbe),
            KernelProbe::Architecture(ArchitectureProbe),
        ],
        probe_names(r@) == seq![
            "version"@,
            "symbols"@,
            "kallsyms"@,
            "btf"@,
            "modules"@,
            "tracing"@,
            "architecture"@,
        ],
{
    let r: &'static [KernelProbe] = &[
        KernelProbe::Version(VersionProbe),
        KernelProbe::Symbols(SymbolsProbe),
        KernelProbe::Kallsyms(KallsymsProbe),
        KernelProbe::Btf(BtfProbe),
        KernelProbe::ModuleLoader(ModuleLoaderProbe),
        KernelProbe::Tracing(TracingProbe),
        KernelProbe::Architecture(ArchitectureProbe),
    ];
    assert(probe_names(r@) =~= seq![
        "version"@,
        "symbols"@,
        "kallsyms"@,
        "btf"@,
        "modules"@,
        "tracing"@,
        "architecture"@,
    ]);
    r
}

/// Number of descriptors over all probes: the count the module reports
/// when it loads.
pub open spec fn descriptor_total(probes: Seq<&dyn Probe>) -> nat
    decreases probes.len(),
{
    if probes.len() == 0 {
        0
    } else {
        descriptor_total(probes.drop_last()) + probes.last().spec_discover().len()
    }
}

/// Counts the descriptors of all `probes`.
pub fn total_descriptors(probes: &[&dyn Probe]) -> (r: usize)
    requires
        descriptor_total(probes@) <= usize::MAX,
    ensures
        r == descriptor_total(probes@),
{
    let mut total: usize = 0;
    let mut i: usize = 0;
    while i < probes.len()
        invariant
            i <= probes@.len(),
            descriptor_total(probes@) <= usize::MAX,
            total == descriptor_total(probes@.take(i as int)),
        decreases probes@.len() - i,
    {
        let ghost t = probes@.take(i + 1);
        assert(t.drop_last() =~= probes@.take(i as int));
        proof {
            lemma_descriptor_total_prefix(probes@, i + 1);
        }
        let d = probes[i].discover();
        assert(descriptor_views(d@).len() == d@.len());
        total = total + d.len();
        i += 1;
    }
    assert(probes@.take(probes@.len() as int) =~= probes@);
    total
}

/// A prefix has no more descriptors than the whole list.
pub proof fn lemma_descriptor_total_prefix(probes: Seq<&dyn Probe>, n: int)
    requires
        0 <= n <= probes.len(),
    ensures
        descriptor_total(probes.take(n)) <= descriptor_total(probes),
    decreases probes.len() - n,
{
    if n < probes.len() {
        lemma_descriptor_total_prefix(probes, n + 1);
        assert(probes.take(n + 1).drop_last() =~= probes.take(n));
    } else {
        assert(probes.take(n) =~= probes);
    }
}

} // verus!
