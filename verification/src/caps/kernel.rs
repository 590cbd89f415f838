//! Kernel identity capabilities: release, architecture, distribution, compiler.
use crate::capability::{missing_view, present_view, Capability};
use crate::evidence::{Evidence, EvidenceValue, EvidenceView, ValueView};
use crate::snapshot::SystemSnapshot;
use crate::evidence::{Confidence, ProbeStatus};
use crate::snapshot::CompilerCompat;
use crate::text::owned;
use vstd::prelude::*;

verus! {

/// Confidence in the compiler match: high when compatible, medium when
/// probably compatible, low otherwise.
pub open spec fn compat_confidence(c: CompilerCompat) -> Confidence {
    match c {
        CompilerCompat::Compatible => Confidence::High,
        CompilerCompat::Probably => Confidence::Medium,
        CompilerCompat::Unknown => Confidence::Low,
        CompilerCompat::NotCompatible => Confidence::Low,
    }
}

/// A copy of an optional string.
pub fn copy_opt(o: &Option<String>) -> (r: Option<String>)
    ensures
        r.deep_view() == o.deep_view(),
{
    match o {
        Some(s) => Some(s.clone()),
        None => None,
    }
}

/// The running kernel release.
pub struct KernelRelease;

impl Capability for KernelRelease {
    open spec fn spec_id(&self) -> Seq<char> {
        "kernel.release"@
    }

    open spec fn spec_label(&self) -> Seq<char> {
        "Kernel Release"@
    }

    open spec fn spec_probe(&self, sys: &SystemSnapshot) -> EvidenceView {
        match sys.kernel_release {
            Some(v) => present_view("kernel.release"@, ValueView::Text(Some(v@))),
            None => missing_view("kernel.release"@, ValueView::Text(None)),
        }
    }

    fn id(&self) -> &'static str {
        "kernel.release"
    }

    fn label(&self) -> &'static str {
        "Kernel Release"
    }

    fn probe(&self, sys: &SystemSnapshot) -> Evidence {
        match &sys.kernel_release {
            Some(v) => Evidence::present(self.id(), EvidenceValue::Text(Some(v.clone()))),
            None => Evidence::missing(self.id(), EvidenceValue::Text(None)),
        }
    }
}

/// The machine architecture.
pub struct KernelArchitecture;

impl Capability for KernelArchitecture {
    open spec fn spec_id(&self) -> Seq<char> {
        "kernel.arch"@
    }

    open spec fn spec_label(&self) -> Seq<char> {
        "Architecture"@
    }

    open spec fn spec_probe(&self, sys: &SystemSnapshot) -> EvidenceView {
        present_view("kernel.arch"@, ValueView::Text(sys.architecture.deep_view()))
    }

    fn id(&self) -> &'static str {
        "kernel.arch"
    }

    fn label(&self) -> &'static str {
        "Architecture"
    }

    fn probe(&self, sys: &SystemSnapshot) -> Evidence {
        Evidence::present(self.id(), EvidenceValue::Text(copy_opt(&sys.architecture)))
    }
}

/// The distribution.
pub struct KernelDistro;

impl Capability for KernelDistro {
    open spec fn spec_id(&self) -> Seq<char> {
        "kernel.distro"@
    }

    open spec fn spec_label(&self) -> Seq<char> {
        "Distribution"@
    }

    open spec fn spec_probe(&self, sys: &SystemSnapshot) -> EvidenceView {
        present_view("kernel.distro"@, ValueView::Text(sys.distro.deep_view()))
    }

    fn id(&self) -> &'static str {
        "kernel.distro"
    }

    fn label(&self) -> &'static str {
        "Distribution"
    }

    fn probe(&self, sys: &SystemSnapshot) -> Evidence {
        Evidence::present(self.id(), EvidenceValue::Text(copy_opt(&sys.distro)))
    }
}

/// The compiler version.
pub struct CompilerVersion;

impl Capability for CompilerVersion {
    open spec fn spec_id(&self) -> Seq<char> {
        "kernel.compiler"@
    }

    open spec fn spec_label(&self) -> Seq<char> {
        "Compiler"@
    }

    open spec fn spec_probe(&self, sys: &SystemSnapshot) -> EvidenceView {
        match sys.compiler_version {
            Some(v) => present_view("kernel.compiler"@, ValueView::Text(Some(v@))),
            None => missing_view("kernel.compiler"@, ValueView::Text(None)),
        }
    }

    fn id(&self) -> &'static str {
        "kernel.compiler"
    }

    fn label(&self) -> &'static str {
        "Compiler"
    }

    fn probe(&self, sys: &SystemSnapshot) -> Evidence {
        match &sys.compiler_version {
            Some(v) => Evidence::present(self.id(), EvidenceValue::Text(Some(v.clone()))),
            None => Evidence::missing(self.id(), EvidenceValue::Text(None)),
        }
    }
}

/// The compiler that built the kernel, with confidence in its match with the installed gcc.
pub struct CompilerAbi;

impl Capability for CompilerAbi {
    open spec fn spec_id(&self) -> Seq<char> {
        "compiler.abi"@
    }

    open spec fn spec_label(&self) -> Seq<char> {
        "Compiler ABI"@
    }

    open spec fn spec_probe(&self, sys: &SystemSnapshot) -> EvidenceView {
        EvidenceView {
            id: "compiler.abi"@,
            status: ProbeStatus::Present,
            confidence: compat_confidence(sys.gcc_compat),
            value: ValueView::Literal(
                match sys.kernel_compiler {
                    Some(k) => k@,
                    None => "Unknown"@,
                },
            ),
        }
    }

    fn id(&self) -> &'static str {
        "compiler.abi"
    }

    fn label(&self) -> &'static str {
        "Compiler ABI"
    }

    fn probe(&self, sys: &SystemSnapshot) -> Evidence {
        let kernel_comp = match &sys.kernel_compiler {
            Some(k) => k.clone(),
            None => owned("Unknown"),
        };
        let confidence = match sys.gcc_compat {
            CompilerCompat::Compatible => Confidence::High,
            CompilerCompat::Probably => Confidence::Medium,
            CompilerCompat::Unknown => Confidence::Low,
            CompilerCompat::NotCompatible => Confidence::Low,
        };
        Evidence::present(self.id(), EvidenceValue::Literal(kernel_comp)).with_confidence(confidence)
    }
}

} // verus!
