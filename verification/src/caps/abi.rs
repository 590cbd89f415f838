//! ABI capability: kernel ABI identification.
use crate::capability::{missing_view, present_view, Capability};
use crate::evidence::{Evidence, EvidenceValue, EvidenceView, ValueView};
use crate::snapshot::SystemSnapshot;
use crate::text::owned;
use vstd::prelude::*;

verus! {

/// The value, or "Unknown".
pub open spec fn or_unknown(o: Option<String>) -> Seq<char> {
    match o {
        Some(s) => s@,
        None => "Unknown"@,
    }
}

fn or_unknown_str(o: &Option<String>) -> (r: &str)
    ensures
        r@ == or_unknown(*o),
{
    match o {
        Some(s) => s.as_str(),
        None => "Unknown",
    }
}

/// The ABI summary: utsrelease, vermagic, module layout version and
/// module compression.
pub open spec fn abi_text(sys: &SystemSnapshot) -> Seq<char> {
    "utsrelease="@ + or_unknown(sys.abi.utsrelease) + " vermagic="@ + or_unknown(sys.abi.vermagic)
        + " layout="@ + or_unknown(sys.abi.module_layout_version) + " compression="@
        + sys.abi.module_compression@
}

/// Kernel ABI identification.
pub struct AbiInfo;

impl Capability for AbiInfo {
    open spec fn spec_id(&self) -> Seq<char> {
        "abi.info"@
    }

    open spec fn spec_label(&self) -> Seq<char> {
        "ABI Info"@
    }

    open spec fn spec_probe(&self, sys: &SystemSnapshot) -> EvidenceView {
        present_view("abi.info"@, ValueView::Literal(abi_text(sys)))
    }

    fn id(&self) -> &'static str {
        "abi.info"
    }

    fn label(&self) -> &'static str {
        "ABI Info"
    }

    fn probe(&self, sys: &SystemSnapshot) -> Evidence {
        let mut s = owned("utsrelease=");
        s.append(or_unknown_str(&sys.abi.utsrelease));
        s.append(" vermagic=");
        s.append(or_unknown_str(&sys.abi.vermagic));
        s.append(" layout=");
        s.append(or_unknown_str(&sys.abi.module_layout_version));
        s.append(" compression=");
        s.append(sys.abi.module_compression.as_str());
        assert(s@ =~= abi_text(sys));
        Evidence::present(self.id(), EvidenceValue::Literal(s))
    }
}

} // verus!
