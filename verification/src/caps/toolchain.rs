//! Toolchain capabilities: rustc, bindgen, llvm, make, gcc.
use crate::capability::{missing_view, present_view, Capability};
use crate::evidence::{Evidence, EvidenceValue, EvidenceView, ValueView};
use crate::snapshot::SystemSnapshot;
use crate::text::str_eq;
use vstd::prelude::*;

verus! {

/// Whether the tool named `field` is installed: rustc, bindgen or llvm;
/// any other name reads as absent.
pub open spec fn tool_installed(sys: &SystemSnapshot, field: Seq<char>) -> bool {
    if field == "rustc"@ {
        sys.rustc is Some
    } else if field == "bindgen"@ {
        sys.bindgen is Some
    } else if field == "llvm"@ {
        sys.llvm_version is Some
    } else {
        false
    }
}

fn tool_field(sys: &SystemSnapshot, field: &str) -> (r: EvidenceValue)
    ensures
        r@ == ValueView::Bool(tool_installed(sys, field@)),
{
    if str_eq(field, "rustc") {
        EvidenceValue::Bool(sys.rustc.is_some())
    } else if str_eq(field, "bindgen") {
        EvidenceValue::Bool(sys.bindgen.is_some())
    } else if str_eq(field, "llvm") {
        EvidenceValue::Bool(sys.llvm_version.is_some())
    } else {
        EvidenceValue::Bool(false)
    }
}

/// `rustc` is installed.
pub struct RustcInstalled;

impl Capability for RustcInstalled {
    open spec fn spec_id(&self) -> Seq<char> {
        "toolchain.rustc"@
    }

    open spec fn spec_label(&self) -> Seq<char> {
        "rustc"@
    }

    open spec fn spec_probe(&self, sys: &SystemSnapshot) -> EvidenceView {
        present_view("toolchain.rustc"@, ValueView::Bool(tool_installed(sys, "rustc"@)))
    }

    fn id(&self) -> &'static str {
        "toolchain.rustc"
    }

    fn label(&self) -> &'static str {
        "rustc"
    }

    fn probe(&self, sys: &SystemSnapshot) -> Evidence {
        Evidence::present(self.id(), tool_field(sys, "rustc"))
    }
}

/// `bindgen` is installed.
pub struct BindgenInstalled;

impl Capability for BindgenInstalled {
    open spec fn spec_id(&self) -> Seq<char> {
        "toolchain.bindgen"@
    }

    open spec fn spec_label(&self) -> Seq<char> {
        "bindgen"@
    }

    open spec fn spec_probe(&self, sys: &SystemSnapshot) -> EvidenceView {
        present_view("toolchain.bindgen"@, ValueView::Bool(tool_installed(sys, "bindgen"@)))
    }

    fn id(&self) -> &'static str {
        "toolchain.bindgen"
    }

    fn label(&self) -> &'static str {
        "bindgen"
    }

    fn probe(&self, sys: &SystemSnapshot) -> Evidence {
        Evidence::present(self.id(), tool_field(sys, "bindgen"))
    }
}

/// `llvm` is installed.
pub struct LlvmInstalled;

impl Capability for LlvmInstalled {
    open spec fn spec_id(&self) -> Seq<char> {
        "toolchain.llvm"@
    }

    open spec fn spec_label(&self) -> Seq<char> {
        "llvm"@
    }

    open spec fn spec_probe(&self, sys: &SystemSnapshot) -> EvidenceView {
        present_view("toolchain.llvm"@, ValueView::Bool(tool_installed(sys, "llvm"@)))
    }

    fn id(&self) -> &'static str {
        "toolchain.llvm"
    }

    fn label(&self) -> &'static str {
        "llvm"
    }

    fn probe(&self, sys: &SystemSnapshot) -> Evidence {
        Evidence::present(self.id(), tool_field(sys, "llvm"))
    }
}

/// `make` is on the PATH.
pub struct MakeInstalled;

impl Capability for MakeInstalled {
    open spec fn spec_id(&self) -> Seq<char> {
        "toolchain.make"@
    }

    open spec fn spec_label(&self) -> Seq<char> {
        "make"@
    }

    open spec fn spec_probe(&self, sys: &SystemSnapshot) -> EvidenceView {
        present_view("toolchain.make"@, ValueView::Bool(sys.make_available))
    }

    fn id(&self) -> &'static str {
        "toolchain.make"
    }

    fn label(&self) -> &'static str {
        "make"
    }

    fn probe(&self, sys: &SystemSnapshot) -> Evidence {
        Evidence::present(self.id(), EvidenceValue::Bool(sys.make_available))
    }
}

/// A C compiler is installed.
pub struct GccInstalled;

impl Capability for GccInstalled {
    open spec fn spec_id(&self) -> Seq<char> {
        "toolchain.gcc"@
    }

    open spec fn spec_label(&self) -> Seq<char> {
        "gcc"@
    }

    open spec fn spec_probe(&self, sys: &SystemSnapshot) -> EvidenceView {
        present_view("toolchain.gcc"@, ValueView::Bool(sys.compiler_available))
    }

    fn id(&self) -> &'static str {
        "toolchain.gcc"
    }

    fn label(&self) -> &'static str {
        "gcc"
    }

    fn probe(&self, sys: &SystemSnapshot) -> Evidence {
        Evidence::present(self.id(), EvidenceValue::Bool(sys.compiler_available))
    }
}

} // verus!
