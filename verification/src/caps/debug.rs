//! Debug capabilities: BTF, DWARF.
use crate::capability::{missing_view, present_view, Capability};
use crate::evidence::{Evidence, EvidenceValue, EvidenceView, ValueView};
use crate::snapshot::SystemSnapshot;
use vstd::prelude::*;

verus! {

/// BTF type information is available.
pub struct DebugBtf;

impl Capability for DebugBtf {
    open spec fn spec_id(&self) -> Seq<char> {
        "debug.btf"@
    }

    open spec fn spec_label(&self) -> Seq<char> {
        "BTF"@
    }

    open spec fn spec_probe(&self, sys: &SystemSnapshot) -> EvidenceView {
        present_view("debug.btf"@, ValueView::Bool(sys.btf_available))
    }

    fn id(&self) -> &'static str {
        "debug.btf"
    }

    fn label(&self) -> &'static str {
        "BTF"
    }

    fn probe(&self, sys: &SystemSnapshot) -> Evidence {
        Evidence::present(self.id(), EvidenceValue::Bool(sys.btf_available))
    }
}

/// DWARF debug information is available.
pub struct DebugDwarf;

impl Capability for DebugDwarf {
    open spec fn spec_id(&self) -> Seq<char> {
        "debug.dwarf"@
    }

    open spec fn spec_label(&self) -> Seq<char> {
        "DWARF"@
    }

    open spec fn spec_probe(&self, sys: &SystemSnapshot) -> EvidenceView {
        present_view("debug.dwarf"@, ValueView::Bool(sys.dwarf_available))
    }

    fn id(&self) -> &'static str {
        "debug.dwarf"
    }

    fn label(&self) -> &'static str {
        "DWARF"
    }

    fn probe(&self, sys: &SystemSnapshot) -> Evidence {
        Evidence::present(self.id(), EvidenceValue::Bool(sys.dwarf_available))
    }
}

} // verus!
