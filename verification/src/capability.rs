//! The capability contract and the registry that runs capabilities.
//!
//! A capability detects one fact about the kernel environment. It never
//! prints, scores, recommends or modifies the system: it turns what was
//! read from the system into one piece of evidence.
use crate::evidence::{Confidence, Evidence, EvidenceView, ProbeStatus, ValueView};
use crate::snapshot::SystemSnapshot;
use crate::text::{seq_starts_with, str_eq, str_starts_with};
use crate::caps::kernel::KernelRelease;
use crate::caps::kernel::KernelArchitecture;
use crate::caps::kernel::KernelDistro;
use crate::caps::kernel::CompilerVersion;
use crate::caps::kernel::CompilerAbi;
use crate::caps::config::ConfigSource;
use crate::caps::config::ConfigModules;
use crate::caps::config::ConfigModuleSig;
use crate::caps::config::ConfigKallsyms;
use crate::caps::config::ConfigKallsymsAll;
use crate::caps::config::ConfigBpf;
use crate::caps::config::ConfigDebugInfoBtf;
use crate::caps::config::ConfigRust;
use crate::caps::config::ConfigRustAvailable;
use crate::caps::config::ConfigLivepatch;
use crate::caps::modules::ModuleSupport;
use crate::caps::modules::ModuleSigning;
use crate::caps::modules::ModuleLoader;
use crate::caps::symbols::KallsymsInfo;
use crate::caps::symbols::SymbolCount;
use crate::caps::symbols::VmlinuxInfo;
use crate::caps::symbols::ModuleSymvers;
use crate::caps::debug::DebugBtf;
use crate::caps::debug::DebugDwarf;
use crate::caps::abi::AbiInfo;
use crate::caps::toolchain::RustcInstalled;
use crate::caps::toolchain::BindgenInstalled;
use crate::caps::toolchain::LlvmInstalled;
use crate::caps::toolchain::MakeInstalled;
use crate::caps::toolchain::GccInstalled;
use crate::caps::buildenv::HeaderIntegrity;
use crate::caps::buildenv::BuildDirectory;
use crate::caps::buildenv::SourceDirectory;
use crate::caps::buildenv::CompileCommands;
use crate::caps::fs::DebugfsMounted;
use crate::caps::fs::TracefsMounted;
use crate::caps::kernel_cap::module::KernelModuleStatus;
use crate::caps::kernel_cap::version::KernelVersionFromModule;
use crate::caps::kernel_cap::btf::KernelBtfStatus;
use crate::caps::kernel_cap::loader::KernelModuleLoader;
use crate::caps::kernel_cap::tracing::KernelTracingFtrace;
use crate::caps::kernel_cap::tracing::KernelTracingKprobes;
use crate::caps::kernel_cap::security::KernelLockdown;
use crate::caps::kernel_cap::security::KernelActiveLsms;
use crate::caps::kernel_cap::security::KernelKaslr;
use crate::caps::kernel_cap::scheduler::KernelSchedulerClasses;
use crate::caps::kernel_cap::scheduler::KernelPreemption;
use crate::caps::kernel_cap::memory::KernelPageSize;
use crate::caps::kernel_cap::memory::KernelHugePages;
use crate::caps::kernel_cap::memory::KernelMemoryModel;
use crate::caps::kernel_cap::tracepoints::KernelTracepointCount;
use crate::caps::kernel_cap::tracepoints::KernelTracepointSubsystems;
use crate::caps::kernel_cap::symbols::KernelSymbolCount;
use crate::caps::kernel_cap::symbols::KernelSymbolTotal;
use crate::caps::kernel_cap::symbols::KernelSymbolExported;
use crate::caps::kernel_cap::symbols::KernelSymbolGplOnly;
use crate::caps::kernel_cap::symbols::KernelSymbolInternal;
use crate::caps::kernel_cap::symbols::KernelSymbolModuleOwned;
use crate::caps::kernel_cap::symbols::KernelSymbolVmlinux;
use crate::caps::kernel_cap::symbols::KernelSymbolNamespaced;
use crate::caps::kernel_cap::symbols::KernelSymbolKallsyms;
use crate::caps::kernel_cap::symbols::KernelSymbolKallsymsAll;
use crate::caps::kernel_cap::symbols::KernelSymbolKptrRestrict;
use crate::caps::kernel_cap::symbols::KernelSymbolCollection;
use vstd::prelude::*;

verus! {

/// Evidence of a successful probe.
pub open spec fn present_view(id: Seq<char>, value: ValueView) -> EvidenceView {
    EvidenceView { id, status: ProbeStatus::Present, confidence: Confidence::High, value }
}

/// Evidence of a probe that found nothing.
pub open spec fn missing_view(id: Seq<char>, value: ValueView) -> EvidenceView {
    EvidenceView { id, status: ProbeStatus::Missing, confidence: Confidence::High, value }
}

/// A kernel capability probe.
pub trait Capability {
    /// Unique identifier (e.g. "kernel.release").
    spec fn spec_id(&self) -> Seq<char>;

    /// Human-readable label.
    spec fn spec_label(&self) -> Seq<char>;

    /// The evidence this capability derives from what was read.
    spec fn spec_probe(&self, sys: &SystemSnapshot) -> EvidenceView;

    fn id(&self) -> (r: &'static str)
        ensures
            r@ == self.spec_id(),
    ;

    fn label(&self) -> (r: &'static str)
        ensures
            r@ == self.spec_label(),
    ;

    /// Runs the probe on what was read from the system.
    fn probe(&self, sys: &SystemSnapshot) -> (e: Evidence)
        ensures
            e@ == self.spec_probe(sys),
            e@.id == self.spec_id(),
    ;
}

pub open spec fn evidence_views(s: Seq<Evidence>) -> Seq<EvidenceView> {
    s.map_values(|e: Evidence| e@)
}

/// The ids of a list of capabilities.
pub open spec fn capability_ids<C: Capability>(s: Seq<C>) -> Seq<Seq<char>> {
    s.map_values(|c: C| c.spec_id())
}

/// The evidence each capability derives from `sys`, in order.
pub open spec fn probe_all<C: Capability>(s: Seq<C>, sys: &SystemSnapshot) -> Seq<EvidenceView> {
    s.map_values(|c: C| c.spec_probe(sys))
}

pub open spec fn id_starts_with<C: Capability>(prefix: Seq<char>) -> spec_fn(C) -> bool {
    |c: C| seq_starts_with(c.spec_id(), prefix)
}

/// Index of the first capability with id `id`.
pub open spec fn first_with_id<C: Capability>(s: Seq<C>, id: Seq<char>) -> Option<int>
    decreases s.len(),
{
    if s.len() == 0 {
        None
    } else if s[0].spec_id() == id {
        Some(0)
    } else {
        match first_with_id(s.drop_first(), id) {
            Some(i) => Some(i + 1),
            None => None,
        }
    }
}

/// Registry of capabilities. Commands choose which capabilities to run;
/// the registry runs them and collects the evidence.
pub struct Registry<C: Capability> {
    capabilities: Vec<C>,
}

impl<C: Capability> View for Registry<C> {
    type V = Seq<C>;

    closed spec fn view(&self) -> Seq<C> {
        self.capabilities@
    }
}

impl<C: Capability> Registry<C> {
    /// An empty registry.
    pub fn new() -> (r: Self)
        ensures
            r@ == Seq::<C>::empty(),
    {
        Registry { capabilities: Vec::new() }
    }

    /// Registers a capability after the others.
    pub fn register(&mut self, cap: C)
        ensures
            final(self)@ == old(self)@.push(cap),
    {
        self.capabilities.push(cap);
    }

    /// Runs every registered capability, in registration order.
    pub fn run_all(&self, sys: &SystemSnapshot) -> (r: Vec<Evidence>)
        ensures
            evidence_views(r@) == probe_all(self@, sys),
    {
        let mut r: Vec<Evidence> = Vec::new();
        let mut i: usize = 0;
        while i < self.capabilities.len()
            invariant
                i <= self.capabilities@.len(),
                evidence_views(r@) == probe_all(self.capabilities@.take(i as int), sys),
            decreases self.capabilities@.len() - i,
        {
            let ghost before = evidence_views(r@);
            let e = self.capabilities[i].probe(sys);
            r.push(e);
            assert(evidence_views(r@) =~= before.push(e@));
            assert(probe_all(self.capabilities@.take(i + 1), sys) =~= probe_all(
                self.capabilities@.take(i as int),
                sys,
            ).push(self.capabilities@[i as int].spec_probe(sys)));
            i += 1;
        }
        assert(self.capabilities@.take(self.capabilities@.len() as int) =~= self.capabilities@);
        r
    }

    /// Runs the capabilities whose id starts with `prefix` (e.g.
    /// "config."), in registration order.
    pub fn run(&self, prefix: &str, sys: &SystemSnapshot) -> (r: Vec<Evidence>)
        ensures
            evidence_views(r@) == probe_all(self@.filter(id_starts_with(prefix@)), sys),
    {
        let mut r: Vec<Evidence> = Vec::new();
        let mut i: usize = 0;
        while i < self.capabilities.len()
            invariant
                i <= self.capabilities@.len(),
                evidence_views(r@) == probe_all(
                    self.capabilities@.take(i as int).filter(id_starts_with(prefix@)),
                    sys,
                ),
            decreases self.capabilities@.len() - i,
        {
            let c = &self.capabilities[i];
            let ghost prev = self.capabilities@.take(i as int);
            assert(self.capabilities@.take(i + 1) =~= prev.push(*c));
            proof {
                prev.lemma_filter_push(*c, id_starts_with(prefix@));
            }
            if str_starts_with(c.id(), prefix) {
                let ghost before = evidence_views(r@);
                let e = c.probe(sys);
                r.push(e);
                assert(evidence_views(r@) =~= before.push(e@));
                assert(probe_all(prev.filter(id_starts_with(prefix@)).push(*c), sys) =~= probe_all(
                    prev.filter(id_starts_with(prefix@)),
                    sys,
                ).push(c.spec_probe(sys)));
            }
            i += 1;
        }
        assert(self.capabilities@.take(self.capabilities@.len() as int) =~= self.capabilities@);
        r
    }

    /// The first capability with exactly the id `id`.
    pub fn get(&self, id: &str) -> (r: Option<&C>)
        ensures
            match first_with_id(self@, id@) {
                Some(i) => r == Some(&self@[i]),
                None => r is None,
            },
    {
        let mut i: usize = 0;
        assert(self.capabilities@.skip(0) =~= self.capabilities@);
        while i < self.capabilities.len()
            invariant
                i <= self.capabilities@.len(),
                match first_with_id(self.capabilities@, id@) {
                    Some(j) => match first_with_id(self.capabilities@.skip(i as int), id@) {
                        Some(k) => j == k + i,
                        None => false,
                    },
                    None => first_with_id(self.capabilities@.skip(i as int), id@) is None,
                },
            decreases self.capabilities@.len() - i,
        {
            let ghost t = self.capabilities@.skip(i as int);
            assert(t.drop_first() =~= self.capabilities@.skip(i + 1));
            assert(t[0] == self.capabilities@[i as int]);
            if str_eq(self.capabilities[i].id(), id) {
                return Some(&self.capabilities[i]);
            }
            i += 1;
        }
        None
    }
}

/// Every capability id starts with the empty prefix, so running with the
/// empty prefix runs every registered capability.
pub proof fn lemma_empty_prefix_selects_all<C: Capability>(s: Seq<C>)
    ensures
        s.filter(id_starts_with::<C>(Seq::empty())) == s,
    decreases s.len(),
{
    if s.len() > 0 {
        let init = s.drop_last();
        lemma_empty_prefix_selects_all(init);
        init.lemma_filter_push(s.last(), id_starts_with::<C>(Seq::empty()));
        assert(s.last().spec_id().subrange(0, 0) =~= Seq::<char>::empty());
        assert(init.push(s.last()) =~= s);
    }
}

/// `get` finds the first registered capability with the id, and finds
/// none exactly when no capability has it.
pub proof fn lemma_first_with_id_is_first<C: Capability>(s: Seq<C>, id: Seq<char>)
    ensures
        first_with_id(s, id) matches Some(i) ==> 0 <= i < s.len() && s[i].spec_id() == id
            && forall|j: int| 0 <= j < i ==> (#[trigger] s[j]).spec_id() != id,
        first_with_id(s, id) is None ==> forall|j: int| 0 <= j < s.len() ==> (#[trigger] s[j]).spec_id() != id,
    decreases s.len(),
{
    if s.len() > 0 && s[0].spec_id() != id {
        let t = s.drop_first();
        lemma_first_with_id_is_first(t, id);
        assert forall|j: int| 1 <= j < s.len() implies s[j] == #[trigger] t[j - 1] by {}
        if first_with_id(t, id) is None {
            assert forall|j: int| 0 <= j < s.len() implies (#[trigger] s[j]).spec_id() != id by {
                if j > 0 {
                    assert(s[j] == t[j - 1]);
                }
            }
        } else {
            let k = first_with_id(t, id)->0;
            assert forall|j: int| 0 <= j < k + 1 implies (#[trigger] s[j]).spec_id() != id by {
                if j > 0 {
                    assert(s[j] == t[j - 1]);
                }
            }
        }
    }
}

/// A capability that was registered is found again by its id: `get`
/// answers with the first registered capability carrying that id.
pub proof fn lemma_registered_is_found<C: Capability>(s: Seq<C>, c: C)
    ensures
        first_with_id(s.push(c), c.spec_id()) is Some,
        first_with_id(s.push(c), c.spec_id()) matches Some(i) ==> s.push(c)[i].spec_id()
            == c.spec_id(),
{
    lemma_first_with_id_is_first(s.push(c), c.spec_id());
    assert(s.push(c)[s.len() as int] == c);
}

/// Registering appends: after `register(c)`, running with any prefix gives
/// the evidence of the earlier matches, then that of `c` when its id starts
/// with the prefix.
pub proof fn lemma_register_then_run<C: Capability>(
    s: Seq<C>,
    c: C,
    prefix: Seq<char>,
    sys: &SystemSnapshot,
)
    ensures
        probe_all(s.push(c).filter(id_starts_with::<C>(prefix)), sys) == probe_all(
            s.filter(id_starts_with::<C>(prefix)),
            sys,
        ) + (if seq_starts_with(c.spec_id(), prefix) {
            seq![c.spec_probe(sys)]
        } else {
            Seq::<EvidenceView>::empty()
        }),
{
    s.lemma_filter_push(c, id_starts_with::<C>(prefix));
    let old = s.filter(id_starts_with::<C>(prefix));
    if seq_starts_with(c.spec_id(), prefix) {
        assert(probe_all(old.push(c), sys) =~= probe_all(old, sys) + seq![c.spec_probe(sys)]);
    } else {
        assert(probe_all(old, sys) =~= probe_all(old, sys) + Seq::<EvidenceView>::empty());
    }
}

/// Registering appends: after `register(c)`, `get` finds what it found
/// before, and finds `c` for its id when nothing registered earlier has it.
pub proof fn lemma_register_then_get<C: Capability>(s: Seq<C>, c: C, id: Seq<char>)
    ensures
        first_with_id(s.push(c), id) == (match first_with_id(s, id) {
            Some(i) => Some(i),
            None => if c.spec_id() == id {
                Some(s.len() as int)
            } else {
                None
            },
        }),
    decreases s.len(),
{
    let t = s.push(c);
    if s.len() > 0 {
        assert(t.drop_first() =~= s.drop_first().push(c));
        assert(t[0] == s[0]);
        lemma_register_then_get(s.drop_first(), c, id);
        if s[0].spec_id() != id {
            assert(first_with_id(t, id) == (match first_with_id(t.drop_first(), id) {
                Some(i) => Some(i + 1),
                None => None,
            }));
        }
    } else {
        assert(t.drop_first() =~= Seq::<C>::empty());
        assert(t[0] == c);
        assert(first_with_id(t.drop_first(), id) is None);
    }
}

impl Default for Registry<KnownCapability> {
    /// A registry with every known capability registered.
    fn default() -> (r: Self)
        ensures
            capability_ids(r@) == all_capability_ids(),
    {
        let mut reg = Registry::new();
        register_all(&mut reg);
        assert(capability_ids(Seq::<KnownCapability>::empty()) =~= Seq::<Seq<char>>::empty());
        assert(Seq::<Seq<char>>::empty() + all_capability_ids() =~= all_capability_ids());
        reg
    }
}

/// Every capability this crate provides, as one type, so that a registry
/// can hold any of them.
pub enum KnownCapability {
    KernelRelease(KernelRelease),
    KernelArchitecture(KernelArchitecture),
    KernelDistro(KernelDistro),
    CompilerVersion(CompilerVersion),
    CompilerAbi(CompilerAbi),
    ConfigSource(ConfigSource),
    ConfigModules(ConfigModules),
    ConfigModuleSig(ConfigModuleSig),
    ConfigKallsyms(ConfigKallsyms),
    ConfigKallsymsAll(ConfigKallsymsAll),
    ConfigBpf(ConfigBpf),
    ConfigDebugInfoBtf(ConfigDebugInfoBtf),
    ConfigRust(ConfigRust),
    ConfigRustAvailable(ConfigRustAvailable),
    ConfigLivepatch(ConfigLivepatch),
    ModuleSupport(ModuleSupport),
    ModuleSigning(ModuleSigning),
    ModuleLoader(ModuleLoader),
    KallsymsInfo(KallsymsInfo),
    SymbolCount(SymbolCount),
    VmlinuxInfo(VmlinuxInfo),
    ModuleSymvers(ModuleSymvers),
    DebugBtf(DebugBtf),
    DebugDwarf(DebugDwarf),
    AbiInfo(AbiInfo),
    RustcInstalled(RustcInstalled),
    BindgenInstalled(BindgenInstalled),
    LlvmInstalled(LlvmInstalled),
    MakeInstalled(MakeInstalled),
    GccInstalled(GccInstalled),
    HeaderIntegrity(HeaderIntegrity),
    BuildDirectory(BuildDirectory),
    SourceDirectory(SourceDirectory),
    CompileCommands(CompileCommands),
    DebugfsMounted(DebugfsMounted),
    TracefsMounted(TracefsMounted),
    KernelModuleStatus(KernelModuleStatus),
    KernelVersionFromModule(KernelVersionFromModule),
    KernelBtfStatus(KernelBtfStatus),
    KernelModuleLoader(KernelModuleLoader),
    KernelTracingFtrace(KernelTracingFtrace),
    KernelTracingKprobes(KernelTracingKprobes),
    KernelLockdown(KernelLockdown),
    KernelActiveLsms(KernelActiveLsms),
    KernelKaslr(KernelKaslr),
    KernelSchedulerClasses(KernelSchedulerClasses),
    KernelPreemption(KernelPreemption),
    KernelPageSize(KernelPageSize),
    KernelHugePages(KernelHugePages),
    KernelMemoryModel(KernelMemoryModel),
    KernelTracepointCount(KernelTracepointCount),
    KernelTracepointSubsystems(KernelTracepointSubsystems),
    KernelSymbolCount(KernelSymbolCount),
    KernelSymbolTotal(KernelSymbolTotal),
    KernelSymbolExported(KernelSymbolExported),
    KernelSymbolGplOnly(KernelSymbolGplOnly),
    KernelSymbolInternal(KernelSymbolInternal),
    KernelSymbolModuleOwned(KernelSymbolModuleOwned),
    KernelSymbolVmlinux(KernelSymbolVmlinux),
    KernelSymbolNamespaced(KernelSymbolNamespaced),
    KernelSymbolKallsyms(KernelSymbolKallsyms),
    KernelSymbolKallsymsAll(KernelSymbolKallsymsAll),
    KernelSymbolKptrRestrict(KernelSymbolKptrRestrict),
    KernelSymbolCollection(KernelSymbolCollection),
}

impl Capability for KnownCapability {
    open spec fn spec_id(&self) -> Seq<char> {
        match self {
            KnownCapability::KernelRelease(c) => c.spec_id(),
            KnownCapability::KernelArchitecture(c) => c.spec_id(),
            KnownCapability::KernelDistro(c) => c.spec_id(),
            KnownCapability::CompilerVersion(c) => c.spec_id(),
            KnownCapability::CompilerAbi(c) => c.spec_id(),
            KnownCapability::ConfigSource(c) => c.spec_id(),
            KnownCapability::ConfigModules(c) => c.spec_id(),
            KnownCapability::ConfigModuleSig(c) => c.spec_id(),
            KnownCapability::ConfigKallsyms(c) => c.spec_id(),
            KnownCapability::ConfigKallsymsAll(c) => c.spec_id(),
            KnownCapability::ConfigBpf(c) => c.spec_id(),
            KnownCapability::ConfigDebugInfoBtf(c) => c.spec_id(),
            KnownCapability::ConfigRust(c) => c.spec_id(),
            KnownCapability::ConfigRustAvailable(c) => c.spec_id(),
            KnownCapability::ConfigLivepatch(c) => c.spec_id(),
            KnownCapability::ModuleSupport(c) => c.spec_id(),
            KnownCapability::ModuleSigning(c) => c.spec_id(),
            KnownCapability::ModuleLoader(c) => c.spec_id(),
            KnownCapability::KallsymsInfo(c) => c.spec_id(),
            KnownCapability::SymbolCount(c) => c.spec_id(),
            KnownCapability::VmlinuxInfo(c) => c.spec_id(),
            KnownCapability::ModuleSymvers(c) => c.spec_id(),
            KnownCapability::DebugBtf(c) => c.spec_id(),
            KnownCapability::DebugDwarf(c) => c.spec_id(),
            KnownCapability::AbiInfo(c) => c.spec_id(),
            KnownCapability::RustcInstalled(c) => c.spec_id(),
            KnownCapability::BindgenInstalled(c) => c.spec_id(),
            KnownCapability::LlvmInstalled(c) => c.spec_id(),
            KnownCapability::MakeInstalled(c) => c.spec_id(),
            KnownCapability::GccInstalled(c) => c.spec_id(),
            KnownCapability::HeaderIntegrity(c) => c.spec_id(),
            KnownCapability::BuildDirectory(c) => c.spec_id(),
            KnownCapability::SourceDirectory(c) => c.spec_id(),
            KnownCapability::CompileCommands(c) => c.spec_id(),
            KnownCapability::DebugfsMounted(c) => c.spec_id(),
            KnownCapability::TracefsMounted(c) => c.spec_id(),
            KnownCapability::KernelModuleStatus(c) => c.spec_id(),
            KnownCapability::KernelVersionFromModule(c) => c.spec_id(),
            KnownCapability::KernelBtfStatus(c) => c.spec_id(),
            KnownCapability::KernelModuleLoader(c) => c.spec_id(),
            KnownCapability::KernelTracingFtrace(c) => c.spec_id(),
            KnownCapability::KernelTracingKprobes(c) => c.spec_id(),
            KnownCapability::KernelLockdown(c) => c.spec_id(),
            KnownCapability::KernelActiveLsms(c) => c.spec_id(),
            KnownCapability::KernelKaslr(c) => c.spec_id(),
            KnownCapability::KernelSchedulerClasses(c) => c.spec_id(),
            KnownCapability::KernelPreemption(c) => c.spec_id(),
            KnownCapability::KernelPageSize(c) => c.spec_id(),
            KnownCapability::KernelHugePages(c) => c.spec_id(),
            KnownCapability::KernelMemoryModel(c) => c.spec_id(),
            KnownCapability::KernelTracepointCount(c) => c.spec_id(),
            KnownCapability::KernelTracepointSubsystems(c) => c.spec_id(),
            KnownCapability::KernelSymbolCount(c) => c.spec_id(),
            KnownCapability::KernelSymbolTotal(c) => c.spec_id(),
            KnownCapability::KernelSymbolExported(c) => c.spec_id(),
            KnownCapability::KernelSymbolGplOnly(c) => c.spec_id(),
            KnownCapability::KernelSymbolInternal(c) => c.spec_id(),
            KnownCapability::KernelSymbolModuleOwned(c) => c.spec_id(),
            KnownCapability::KernelSymbolVmlinux(c) => c.spec_id(),
            KnownCapability::KernelSymbolNamespaced(c) => c.spec_id(),
            KnownCapability::KernelSymbolKallsyms(c) => c.spec_id(),
            KnownCapability::KernelSymbolKallsymsAll(c) => c.spec_id(),
            KnownCapability::KernelSymbolKptrRestrict(c) => c.spec_id(),
            KnownCapability::KernelSymbolCollection(c) => c.spec_id(),
        }
    }

    open spec fn spec_label(&self) -> Seq<char> {
        match self {
            KnownCapability::KernelRelease(c) => c.spec_label(),
            KnownCapability::KernelArchitecture(c) => c.spec_label(),
            KnownCapability::KernelDistro(c) => c.spec_label(),
            KnownCapability::CompilerVersion(c) => c.spec_label(),
            KnownCapability::CompilerAbi(c) => c.spec_label(),
            KnownCapability::ConfigSource(c) => c.spec_label(),
            KnownCapability::ConfigModules(c) => c.spec_label(),
            KnownCapability::ConfigModuleSig(c) => c.spec_label(),
            KnownCapability::ConfigKallsyms(c) => c.spec_label(),
            KnownCapability::ConfigKallsymsAll(c) => c.spec_label(),
            KnownCapability::ConfigBpf(c) => c.spec_label(),
            KnownCapability::ConfigDebugInfoBtf(c) => c.spec_label(),
            KnownCapability::ConfigRust(c) => c.spec_label(),
            KnownCapability::ConfigRustAvailable(c) => c.spec_label(),
            KnownCapability::ConfigLivepatch(c) => c.spec_label(),
            KnownCapability::ModuleSupport(c) => c.spec_label(),
            KnownCapability::ModuleSigning(c) => c.spec_label(),
            KnownCapability::ModuleLoader(c) => c.spec_label(),
            KnownCapability::KallsymsInfo(c) => c.spec_label(),
            KnownCapability::SymbolCount(c) => c.spec_label(),
            KnownCapability::VmlinuxInfo(c) => c.spec_label(),
            KnownCapability::ModuleSymvers(c) => c.spec_label(),
            KnownCapability::DebugBtf(c) => c.spec_label(),
            KnownCapability::DebugDwarf(c) => c.spec_label(),
            KnownCapability::AbiInfo(c) => c.spec_label(),
            KnownCapability::RustcInstalled(c) => c.spec_label(),
            KnownCapability::BindgenInstalled(c) => c.spec_label(),
            KnownCapability::LlvmInstalled(c) => c.spec_label(),
            KnownCapability::MakeInstalled(c) => c.spec_label(),
            KnownCapability::GccInstalled(c) => c.spec_label(),
            KnownCapability::HeaderIntegrity(c) => c.spec_label(),
            KnownCapability::BuildDirectory(c) => c.spec_label(),
            KnownCapability::SourceDirectory(c) => c.spec_label(),
            KnownCapability::CompileCommands(c) => c.spec_label(),
            KnownCapability::DebugfsMounted(c) => c.spec_label(),
            KnownCapability::TracefsMounted(c) => c.spec_label(),
            KnownCapability::KernelModuleStatus(c) => c.spec_label(),
            KnownCapability::KernelVersionFromModule(c) => c.spec_label(),
            KnownCapability::KernelBtfStatus(c) => c.spec_label(),
            KnownCapability::KernelModuleLoader(c) => c.spec_label(),
            KnownCapability::KernelTracingFtrace(c) => c.spec_label(),
            KnownCapability::KernelTracingKprobes(c) => c.spec_label(),
            KnownCapability::KernelLockdown(c) => c.spec_label(),
            KnownCapability::KernelActiveLsms(c) => c.spec_label(),
            KnownCapability::KernelKaslr(c) => c.spec_label(),
            KnownCapability::KernelSchedulerClasses(c) => c.spec_label(),
            KnownCapability::KernelPreemption(c) => c.spec_label(),
            KnownCapability::KernelPageSize(c) => c.spec_label(),
            KnownCapability::KernelHugePages(c) => c.spec_label(),
            KnownCapability::KernelMemoryModel(c) => c.spec_label(),
            KnownCapability::KernelTracepointCount(c) => c.spec_label(),
            KnownCapability::KernelTracepointSubsystems(c) => c.spec_label(),
            KnownCapability::KernelSymbolCount(c) => c.spec_label(),
            KnownCapability::KernelSymbolTotal(c) => c.spec_label(),
            KnownCapability::KernelSymbolExported(c) => c.spec_label(),
            KnownCapability::KernelSymbolGplOnly(c) => c.spec_label(),
            KnownCapability::KernelSymbolInternal(c) => c.spec_label(),
            KnownCapability::KernelSymbolModuleOwned(c) => c.spec_label(),
            KnownCapability::KernelSymbolVmlinux(c) => c.spec_label(),
            KnownCapability::KernelSymbolNamespaced(c) => c.spec_label(),
            KnownCapability::KernelSymbolKallsyms(c) => c.spec_label(),
            KnownCapability::KernelSymbolKallsymsAll(c) => c.spec_label(),
            KnownCapability::KernelSymbolKptrRestrict(c) => c.spec_label(),
            KnownCapability::KernelSymbolCollection(c) => c.spec_label(),
        }
    }

    open spec fn spec_probe(&self, sys: &SystemSnapshot) -> EvidenceView {
        match self {
            KnownCapability::KernelRelease(c) => c.spec_probe(sys),
            KnownCapability::KernelArchitecture(c) => c.spec_probe(sys),
            KnownCapability::KernelDistro(c) => c.spec_probe(sys),
            KnownCapability::CompilerVersion(c) => c.spec_probe(sys),
            KnownCapability::CompilerAbi(c) => c.spec_probe(sys),
            KnownCapability::ConfigSource(c) => c.spec_probe(sys),
            KnownCapability::ConfigModules(c) => c.spec_probe(sys),
            KnownCapability::ConfigModuleSig(c) => c.spec_probe(sys),
            KnownCapability::ConfigKallsyms(c) => c.spec_probe(sys),
            KnownCapability::ConfigKallsymsAll(c) => c.spec_probe(sys),
            KnownCapability::ConfigBpf(c) => c.spec_probe(sys),
            KnownCapability::ConfigDebugInfoBtf(c) => c.spec_probe(sys),
            KnownCapability::ConfigRust(c) => c.spec_probe(sys),
            KnownCapability::ConfigRustAvailable(c) => c.spec_probe(sys),
            KnownCapability::ConfigLivepatch(c) => c.spec_probe(sys),
            KnownCapability::ModuleSupport(c) => c.spec_probe(sys),
            KnownCapability::ModuleSigning(c) => c.spec_probe(sys),
            KnownCapability::ModuleLoader(c) => c.spec_probe(sys),
            KnownCapability::KallsymsInfo(c) => c.spec_probe(sys),
            KnownCapability::SymbolCount(c) => c.spec_probe(sys),
            KnownCapability::VmlinuxInfo(c) => c.spec_probe(sys),
            KnownCapability::ModuleSymvers(c) => c.spec_probe(sys),
            KnownCapability::DebugBtf(c) => c.spec_probe(sys),
            KnownCapability::DebugDwarf(c) => c.spec_probe(sys),
            KnownCapability::AbiInfo(c) => c.spec_probe(sys),
            KnownCapability::RustcInstalled(c) => c.spec_probe(sys),
            KnownCapability::BindgenInstalled(c) => c.spec_probe(sys),
            KnownCapability::LlvmInstalled(c) => c.spec_probe(sys),
            KnownCapability::MakeInstalled(c) => c.spec_probe(sys),
            KnownCapability::GccInstalled(c) => c.spec_probe(sys),
            KnownCapability::HeaderIntegrity(c) => c.spec_probe(sys),
            KnownCapability::BuildDirectory(c) => c.spec_probe(sys),
            KnownCapability::SourceDirectory(c) => c.spec_probe(sys),
            KnownCapability::CompileCommands(c) => c.spec_probe(sys),
            KnownCapability::DebugfsMounted(c) => c.spec_probe(sys),
            KnownCapability::TracefsMounted(c) => c.spec_probe(sys),
            KnownCapability::KernelModuleStatus(c) => c.spec_probe(sys),
            KnownCapability::KernelVersionFromModule(c) => c.spec_probe(sys),
            KnownCapability::KernelBtfStatus(c) => c.spec_probe(sys),
            KnownCapability::KernelModuleLoader(c) => c.spec_probe(sys),
            KnownCapability::KernelTracingFtrace(c) => c.spec_probe(sys),
            KnownCapability::KernelTracingKprobes(c) => c.spec_probe(sys),
            KnownCapability::KernelLockdown(c) => c.spec_probe(sys),
            KnownCapability::KernelActiveLsms(c) => c.spec_probe(sys),
            KnownCapability::KernelKaslr(c) => c.spec_probe(sys),
            KnownCapability::KernelSchedulerClasses(c) => c.spec_probe(sys),
            KnownCapability::KernelPreemption(c) => c.spec_probe(sys),
            KnownCapability::KernelPageSize(c) => c.spec_probe(sys),
            KnownCapability::KernelHugePages(c) => c.spec_probe(sys),
            KnownCapability::KernelMemoryModel(c) => c.spec_probe(sys),
            KnownCapability::KernelTracepointCount(c) => c.spec_probe(sys),
            KnownCapability::KernelTracepointSubsystems(c) => c.spec_probe(sys),
            KnownCapability::KernelSymbolCount(c) => c.spec_probe(sys),
            KnownCapability::KernelSymbolTotal(c) => c.spec_probe(sys),
            KnownCapability::KernelSymbolExported(c) => c.spec_probe(sys),
            KnownCapability::KernelSymbolGplOnly(c) => c.spec_probe(sys),
            KnownCapability::KernelSymbolInternal(c) => c.spec_probe(sys),
            KnownCapability::KernelSymbolModuleOwned(c) => c.spec_probe(sys),
            KnownCapability::KernelSymbolVmlinux(c) => c.spec_probe(sys),
            KnownCapability::KernelSymbolNamespaced(c) => c.spec_probe(sys),
            KnownCapability::KernelSymbolKallsyms(c) => c.spec_probe(sys),
            KnownCapability::KernelSymbolKallsymsAll(c) => c.spec_probe(sys),
            KnownCapability::KernelSymbolKptrRestrict(c) => c.spec_probe(sys),
            KnownCapability::KernelSymbolCollection(c) => c.spec_probe(sys),
        }
    }

    fn id(&self) -> &'static str {
        match self {
            KnownCapability::KernelRelease(c) => c.id(),
            KnownCapability::KernelArchitecture(c) => c.id(),
            KnownCapability::KernelDistro(c) => c.id(),
            KnownCapability::CompilerVersion(c) => c.id(),
            KnownCapability::CompilerAbi(c) => c.id(),
            KnownCapability::ConfigSource(c) => c.id(),
            KnownCapability::ConfigModules(c) => c.id(),
            KnownCapability::ConfigModuleSig(c) => c.id(),
            KnownCapability::ConfigKallsyms(c) => c.id(),
            KnownCapability::ConfigKallsymsAll(c) => c.id(),
            KnownCapability::ConfigBpf(c) => c.id(),
            KnownCapability::ConfigDebugInfoBtf(c) => c.id(),
            KnownCapability::ConfigRust(c) => c.id(),
            KnownCapability::ConfigRustAvailable(c) => c.id(),
            KnownCapability::ConfigLivepatch(c) => c.id(),
            KnownCapability::ModuleSupport(c) => c.id(),
            KnownCapability::ModuleSigning(c) => c.id(),
            KnownCapability::ModuleLoader(c) => c.id(),
            KnownCapability::KallsymsInfo(c) => c.id(),
            KnownCapability::SymbolCount(c) => c.id(),
            KnownCapability::VmlinuxInfo(c) => c.id(),
            KnownCapability::ModuleSymvers(c) => c.id(),
            KnownCapability::DebugBtf(c) => c.id(),
            KnownCapability::DebugDwarf(c) => c.id(),
            KnownCapability::AbiInfo(c) => c.id(),
            KnownCapability::RustcInstalled(c) => c.id(),
            KnownCapability::BindgenInstalled(c) => c.id(),
            KnownCapability::LlvmInstalled(c) => c.id(),
            KnownCapability::MakeInstalled(c) => c.id(),
            KnownCapability::GccInstalled(c) => c.id(),
            KnownCapability::HeaderIntegrity(c) => c.id(),
            KnownCapability::BuildDirectory(c) => c.id(),
            KnownCapability::SourceDirectory(c) => c.id(),
            KnownCapability::CompileCommands(c) => c.id(),
            KnownCapability::DebugfsMounted(c) => c.id(),
            KnownCapability::TracefsMounted(c) => c.id(),
            KnownCapability::KernelModuleStatus(c) => c.id(),
            KnownCapability::KernelVersionFromModule(c) => c.id(),
            KnownCapability::KernelBtfStatus(c) => c.id(),
            KnownCapability::KernelModuleLoader(c) => c.id(),
            KnownCapability::KernelTracingFtrace(c) => c.id(),
            KnownCapability::KernelTracingKprobes(c) => c.id(),
            KnownCapability::KernelLockdown(c) => c.id(),
            KnownCapability::KernelActiveLsms(c) => c.id(),
            KnownCapability::KernelKaslr(c) => c.id(),
            KnownCapability::KernelSchedulerClasses(c) => c.id(),
            KnownCapability::KernelPreemption(c) => c.id(),
            KnownCapability::KernelPageSize(c) => c.id(),
            KnownCapability::KernelHugePages(c) => c.id(),
            KnownCapability::KernelMemoryModel(c) => c.id(),
            KnownCapability::KernelTracepointCount(c) => c.id(),
            KnownCapability::KernelTracepointSubsystems(c) => c.id(),
            KnownCapability::KernelSymbolCount(c) => c.id(),
            KnownCapability::KernelSymbolTotal(c) => c.id(),
            KnownCapability::KernelSymbolExported(c) => c.id(),
            KnownCapability::KernelSymbolGplOnly(c) => c.id(),
            KnownCapability::KernelSymbolInternal(c) => c.id(),
            KnownCapability::KernelSymbolModuleOwned(c) => c.id(),
            KnownCapability::KernelSymbolVmlinux(c) => c.id(),
            KnownCapability::KernelSymbolNamespaced(c) => c.id(),
            KnownCapability::KernelSymbolKallsyms(c) => c.id(),
            KnownCapability::KernelSymbolKallsymsAll(c) => c.id(),
            KnownCapability::KernelSymbolKptrRestrict(c) => c.id(),
            KnownCapability::KernelSymbolCollection(c) => c.id(),
        }
    }

    fn label(&self) -> &'static str {
        match self {
            KnownCapability::KernelRelease(c) => c.label(),
            KnownCapability::KernelArchitecture(c) => c.label(),
            KnownCapability::KernelDistro(c) => c.label(),
            KnownCapability::CompilerVersion(c) => c.label(),
            KnownCapability::CompilerAbi(c) => c.label(),
            KnownCapability::ConfigSource(c) => c.label(),
            KnownCapability::ConfigModules(c) => c.label(),
            KnownCapability::ConfigModuleSig(c) => c.label(),
            KnownCapability::ConfigKallsyms(c) => c.label(),
            KnownCapability::ConfigKallsymsAll(c) => c.label(),
            KnownCapability::ConfigBpf(c) => c.label(),
            KnownCapability::ConfigDebugInfoBtf(c) => c.label(),
            KnownCapability::ConfigRust(c) => c.label(),
            KnownCapability::ConfigRustAvailable(c) => c.label(),
            KnownCapability::ConfigLivepatch(c) => c.label(),
            KnownCapability::ModuleSupport(c) => c.label(),
            KnownCapability::ModuleSigning(c) => c.label(),
            KnownCapability::ModuleLoader(c) => c.label(),
            KnownCapability::KallsymsInfo(c) => c.label(),
            KnownCapability::SymbolCount(c) => c.label(),
            KnownCapability::VmlinuxInfo(c) => c.label(),
            KnownCapability::ModuleSymvers(c) => c.label(),
            KnownCapability::DebugBtf(c) => c.label(),
            KnownCapability::DebugDwarf(c) => c.label(),
            KnownCapability::AbiInfo(c) => c.label(),
            KnownCapability::RustcInstalled(c) => c.label(),
            KnownCapability::BindgenInstalled(c) => c.label(),
            KnownCapability::LlvmInstalled(c) => c.label(),
            KnownCapability::MakeInstalled(c) => c.label(),
            KnownCapability::GccInstalled(c) => c.label(),
            KnownCapability::HeaderIntegrity(c) => c.label(),
            KnownCapability::BuildDirectory(c) => c.label(),
            KnownCapability::SourceDirectory(c) => c.label(),
            KnownCapability::CompileCommands(c) => c.label(),
            KnownCapability::DebugfsMounted(c) => c.label(),
            KnownCapability::TracefsMounted(c) => c.label(),
            KnownCapability::KernelModuleStatus(c) => c.label(),
            KnownCapability::KernelVersionFromModule(c) => c.label(),
            KnownCapability::KernelBtfStatus(c) => c.label(),
            KnownCapability::KernelModuleLoader(c) => c.label(),
            KnownCapability::KernelTracingFtrace(c) => c.label(),
            KnownCapability::KernelTracingKprobes(c) => c.label(),
            KnownCapability::KernelLockdown(c) => c.label(),
            KnownCapability::KernelActiveLsms(c) => c.label(),
            KnownCapability::KernelKaslr(c) => c.label(),
            KnownCapability::KernelSchedulerClasses(c) => c.label(),
            KnownCapability::KernelPreemption(c) => c.label(),
            KnownCapability::KernelPageSize(c) => c.label(),
            KnownCapability::KernelHugePages(c) => c.label(),
            KnownCapability::KernelMemoryModel(c) => c.label(),
            KnownCapability::KernelTracepointCount(c) => c.label(),
            KnownCapability::KernelTracepointSubsystems(c) => c.label(),
            KnownCapability::KernelSymbolCount(c) => c.label(),
            KnownCapability::KernelSymbolTotal(c) => c.label(),
            KnownCapability::KernelSymbolExported(c) => c.label(),
            KnownCapability::KernelSymbolGplOnly(c) => c.label(),
            KnownCapability::KernelSymbolInternal(c) => c.label(),
            KnownCapability::KernelSymbolModuleOwned(c) => c.label(),
            KnownCapability::KernelSymbolVmlinux(c) => c.label(),
            KnownCapability::KernelSymbolNamespaced(c) => c.label(),
            KnownCapability::KernelSymbolKallsyms(c) => c.label(),
            KnownCapability::KernelSymbolKallsymsAll(c) => c.label(),
            KnownCapability::KernelSymbolKptrRestrict(c) => c.label(),
            KnownCapability::KernelSymbolCollection(c) => c.label(),
        }
    }

    fn probe(&self, sys: &SystemSnapshot) -> Evidence {
        match self {
            KnownCapability::KernelRelease(c) => c.probe(sys),
            KnownCapability::KernelArchitecture(c) => c.probe(sys),
            KnownCapability::KernelDistro(c) => c.probe(sys),
            KnownCapability::CompilerVersion(c) => c.probe(sys),
            KnownCapability::CompilerAbi(c) => c.probe(sys),
            KnownCapability::ConfigSource(c) => c.probe(sys),
            KnownCapability::ConfigModules(c) => c.probe(sys),
            KnownCapability::ConfigModuleSig(c) => c.probe(sys),
            KnownCapability::ConfigKallsyms(c) => c.probe(sys),
            KnownCapability::ConfigKallsymsAll(c) => c.probe(sys),
            KnownCapability::ConfigBpf(c) => c.probe(sys),
            KnownCapability::ConfigDebugInfoBtf(c) => c.probe(sys),
            KnownCapability::ConfigRust(c) => c.probe(sys),
            KnownCapability::ConfigRustAvailable(c) => c.probe(sys),
            KnownCapability::ConfigLivepatch(c) => c.probe(sys),
            KnownCapability::ModuleSupport(c) => c.probe(sys),
            KnownCapability::ModuleSigning(c) => c.probe(sys),
            KnownCapability::ModuleLoader(c) => c.probe(sys),
            KnownCapability::KallsymsInfo(c) => c.probe(sys),
            KnownCapability::SymbolCount(c) => c.probe(sys),
            KnownCapability::VmlinuxInfo(c) => c.probe(sys),
            KnownCapability::ModuleSymvers(c) => c.probe(sys),
            KnownCapability::DebugBtf(c) => c.probe(sys),
            KnownCapability::DebugDwarf(c) => c.probe(sys),
            KnownCapability::AbiInfo(c) => c.probe(sys),
            KnownCapability::RustcInstalled(c) => c.probe(sys),
            KnownCapability::BindgenInstalled(c) => c.probe(sys),
            KnownCapability::LlvmInstalled(c) => c.probe(sys),
            KnownCapability::MakeInstalled(c) => c.probe(sys),
            KnownCapability::GccInstalled(c) => c.probe(sys),
            KnownCapability::HeaderIntegrity(c) => c.probe(sys),
            KnownCapability::BuildDirectory(c) => c.probe(sys),
            KnownCapability::SourceDirectory(c) => c.probe(sys),
            KnownCapability::CompileCommands(c) => c.probe(sys),
            KnownCapability::DebugfsMounted(c) => c.probe(sys),
            KnownCapability::TracefsMounted(c) => c.probe(sys),
            KnownCapability::KernelModuleStatus(c) => c.probe(sys),
            KnownCapability::KernelVersionFromModule(c) => c.probe(sys),
            KnownCapability::KernelBtfStatus(c) => c.probe(sys),
            KnownCapability::KernelModuleLoader(c) => c.probe(sys),
            KnownCapability::KernelTracingFtrace(c) => c.probe(sys),
            KnownCapability::KernelTracingKprobes(c) => c.probe(sys),
            KnownCapability::KernelLockdown(c) => c.probe(sys),
            KnownCapability::KernelActiveLsms(c) => c.probe(sys),
            KnownCapability::KernelKaslr(c) => c.probe(sys),
            KnownCapability::KernelSchedulerClasses(c) => c.probe(sys),
            KnownCapability::KernelPreemption(c) => c.probe(sys),
            KnownCapability::KernelPageSize(c) => c.probe(sys),
            KnownCapability::KernelHugePages(c) => c.probe(sys),
            KnownCapability::KernelMemoryModel(c) => c.probe(sys),
            KnownCapability::KernelTracepointCount(c) => c.probe(sys),
            KnownCapability::KernelTracepointSubsystems(c) => c.probe(sys),
            KnownCapability::KernelSymbolCount(c) => c.probe(sys),
            KnownCapability::KernelSymbolTotal(c) => c.probe(sys),
            KnownCapability::KernelSymbolExported(c) => c.probe(sys),
            KnownCapability::KernelSymbolGplOnly(c) => c.probe(sys),
            KnownCapability::KernelSymbolInternal(c) => c.probe(sys),
            KnownCapability::KernelSymbolModuleOwned(c) => c.probe(sys),
            KnownCapability::KernelSymbolVmlinux(c) => c.probe(sys),
            KnownCapability::KernelSymbolNamespaced(c) => c.probe(sys),
            KnownCapability::KernelSymbolKallsyms(c) => c.probe(sys),
            KnownCapability::KernelSymbolKallsymsAll(c) => c.probe(sys),
            KnownCapability::KernelSymbolKptrRestrict(c) => c.probe(sys),
            KnownCapability::KernelSymbolCollection(c) => c.probe(sys),
        }
    }
}

/// The ids of the capabilities [`register_all`] registers, in order.
pub open spec fn all_capability_ids() -> Seq<Seq<char>> {
    Seq::empty()
        .push("kernel.release"@)
        .push("kernel.arch"@)
        .push("kernel.distro"@)
        .push("kernel.compiler"@)
        .push("compiler.abi"@)
        .push("config.source"@)
        .push("config.MODULES"@)
        .push("config.MODULE_SIG"@)
        .push("config.KALLSYMS"@)
        .push("config.KALLSYMS_ALL"@)
        .push("config.BPF"@)
        .push("config.DEBUG_INFO_BTF"@)
        .push("config.RUST"@)
        .push("config.RUST_IS_AVAILABLE"@)
        .push("config.LIVEPATCH"@)
        .push("modules.support"@)
        .push("modules.signing"@)
        .push("modules.loader"@)
        .push("symbols.kallsyms"@)
        .push("symbols.count"@)
        .push("symbols.vmlinux"@)
        .push("symbols.symvers"@)
        .push("debug.btf"@)
        .push("debug.dwarf"@)
        .push("abi.info"@)
        .push("toolchain.rustc"@)
        .push("toolchain.bindgen"@)
        .push("toolchain.llvm"@)
        .push("toolchain.make"@)
        .push("toolchain.gcc"@)
        .push("build.headers"@)
        .push("build.dir"@)
        .push("build.source"@)
        .push("build.compile_commands"@)
        .push("fs.debugfs"@)
        .push("fs.tracefs"@)
        .push("kernel.module_loaded"@)
        .push("kernel.version.module"@)
        .push("kernel.symbols.total"@)
        .push("kernel.symbols.exported"@)
        .push("kernel.symbols.gpl_only"@)
        .push("kernel.symbols.internal"@)
        .push("kernel.symbols.module_owned"@)
        .push("kernel.symbols.vmlinux"@)
        .push("kernel.symbols.namespaced"@)
        .push("kernel.symbols.kallsyms"@)
        .push("kernel.symbols.kallsyms_all"@)
        .push("kernel.symbols.kptr_restrict"@)
        .push("kernel.symbols.collection"@)
        .push("kernel.btf.module"@)
        .push("kernel.loader.module"@)
        .push("kernel.tracing.ftrace"@)
        .push("kernel.tracing.kprobes"@)
        .push("kernel.security.lockdown"@)
        .push("kernel.security.lsms"@)
        .push("kernel.security.kaslr"@)
        .push("kernel.scheduler.classes"@)
        .push("kernel.scheduler.preemption"@)
        .push("kernel.memory.page_size"@)
        .push("kernel.memory.hugepages"@)
        .push("kernel.memory.model"@)
        .push("kernel.tracepoints.count"@)
        .push("kernel.tracepoints.subsystems"@)
}

/// Registers every known capability (63), in the order of
/// [`all_capability_ids`]: kernel identity, configuration, module
/// environment, symbols, debug, ABI, toolchain, build environment,
/// filesystems, then the kernel module's capabilities: its status and
/// release, the symbol discovery entries, BTF, loader, tracing, security,
/// scheduler, memory and tracepoints.
#[verifier::rlimit(60)]
pub fn register_all(reg: &mut Registry<KnownCapability>)
    ensures
        capability_ids(final(reg)@) == capability_ids(old(reg)@) + all_capability_ids(),
{
    let ghost start = capability_ids(reg@);
    reg.register(KnownCapability::KernelRelease(KernelRelease));
    reg.register(KnownCapability::KernelArchitecture(KernelArchitecture));
    reg.register(KnownCapability::KernelDistro(KernelDistro));
    reg.register(KnownCapability::CompilerVersion(CompilerVersion));
    reg.register(KnownCapability::CompilerAbi(CompilerAbi));
    reg.register(KnownCapability::ConfigSource(ConfigSource));
    reg.register(KnownCapability::ConfigModules(ConfigModules));
    reg.register(KnownCapability::ConfigModuleSig(ConfigModuleSig));
    reg.register(KnownCapability::ConfigKallsyms(ConfigKallsyms));
    reg.register(KnownCapability::ConfigKallsymsAll(ConfigKallsymsAll));
    reg.register(KnownCapability::ConfigBpf(ConfigBpf));
    reg.register(KnownCapability::ConfigDebugInfoBtf(ConfigDebugInfoBtf));
    reg.register(KnownCapability::ConfigRust(ConfigRust));
    reg.register(KnownCapability::ConfigRustAvailable(ConfigRustAvailable));
    reg.register(KnownCapability::ConfigLivepatch(ConfigLivepatch));
    reg.register(KnownCapability::ModuleSupport(ModuleSupport));
    reg.register(KnownCapability::ModuleSigning(ModuleSigning));
    reg.register(KnownCapability::ModuleLoader(ModuleLoader));
    reg.register(KnownCapability::KallsymsInfo(KallsymsInfo));
    reg.register(KnownCapability::SymbolCount(SymbolCount));
    reg.register(KnownCapability::VmlinuxInfo(VmlinuxInfo));
    reg.register(KnownCapability::ModuleSymvers(ModuleSymvers));
    reg.register(KnownCapability::DebugBtf(DebugBtf));
    reg.register(KnownCapability::DebugDwarf(DebugDwarf));
    reg.register(KnownCapability::AbiInfo(AbiInfo));
    reg.register(KnownCapability::RustcInstalled(RustcInstalled));
    reg.register(KnownCapability::BindgenInstalled(BindgenInstalled));
    reg.register(KnownCapability::LlvmInstalled(LlvmInstalled));
    reg.register(KnownCapability::MakeInstalled(MakeInstalled));
    reg.register(KnownCapability::GccInstalled(GccInstalled));
    reg.register(KnownCapability::HeaderIntegrity(HeaderIntegrity));
    reg.register(KnownCapability::BuildDirectory(BuildDirectory));
    reg.register(KnownCapability::SourceDirectory(SourceDirectory));
    reg.register(KnownCapability::CompileCommands(CompileCommands));
    reg.register(KnownCapability::DebugfsMounted(DebugfsMounted));
    reg.register(KnownCapability::TracefsMounted(TracefsMounted));
    reg.register(KnownCapability::KernelModuleStatus(KernelModuleStatus));
    reg.register(KnownCapability::KernelVersionFromModule(KernelVersionFromModule));
    reg.register(KnownCapability::KernelSymbolTotal(KernelSymbolTotal));
    reg.register(KnownCapability::KernelSymbolExported(KernelSymbolExported));
    reg.register(KnownCapability::KernelSymbolGplOnly(KernelSymbolGplOnly));
    reg.register(KnownCapability::KernelSymbolInternal(KernelSymbolInternal));
    reg.register(KnownCapability::KernelSymbolModuleOwned(KernelSymbolModuleOwned));
    reg.register(KnownCapability::KernelSymbolVmlinux(KernelSymbolVmlinux));
    reg.register(KnownCapability::KernelSymbolNamespaced(KernelSymbolNamespaced));
    reg.register(KnownCapability::KernelSymbolKallsyms(KernelSymbolKallsyms));
    reg.register(KnownCapability::KernelSymbolKallsymsAll(KernelSymbolKallsymsAll));
    reg.register(KnownCapability::KernelSymbolKptrRestrict(KernelSymbolKptrRestrict));
    reg.register(KnownCapability::KernelSymbolCollection(KernelSymbolCollection));
    reg.register(KnownCapability::KernelBtfStatus(KernelBtfStatus));
    reg.register(KnownCapability::KernelModuleLoader(KernelModuleLoader));
    reg.register(KnownCapability::KernelTracingFtrace(KernelTracingFtrace));
    reg.register(KnownCapability::KernelTracingKprobes(KernelTracingKprobes));
    reg.register(KnownCapability::KernelLockdown(KernelLockdown));
    reg.register(KnownCapability::KernelActiveLsms(KernelActiveLsms));
    reg.register(KnownCapability::KernelKaslr(KernelKaslr));
    reg.register(KnownCapability::KernelSchedulerClasses(KernelSchedulerClasses));
    reg.register(KnownCapability::KernelPreemption(KernelPreemption));
    reg.register(KnownCapability::KernelPageSize(KernelPageSize));
    reg.register(KnownCapability::KernelHugePages(KernelHugePages));
    reg.register(KnownCapability::KernelMemoryModel(KernelMemoryModel));
    reg.register(KnownCapability::KernelTracepointCount(KernelTracepointCount));
    reg.register(KnownCapability::KernelTracepointSubsystems(KernelTracepointSubsystems));
    assert(capability_ids(reg@) =~= start + all_capability_ids());
}

} // verus!
