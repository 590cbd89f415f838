//! Module environment capabilities: support, signing, loader.
use crate::capability::{missing_view, present_view, Capability};
use crate::evidence::{Evidence, EvidenceValue, EvidenceView, ValueView};
use crate::snapshot::SystemSnapshot;
use crate::caps::{cfg_val, spec_cfg_val};
use crate::text::{decimal, owned, push_decimal};
use vstd::prelude::*;

verus! {

/// What module support allows: development needs modules, headers and a
/// C compiler.
pub open spec fn module_support_text(sys: &SystemSnapshot) -> Seq<char> {
    let has_mod = spec_cfg_val(sys, "MODULES"@).spec_is_enabled();
    let dev_ok = has_mod && sys.headers_available && sys.compiler_available;
    if has_mod && dev_ok {
        "supported with development environment"@
    } else if has_mod {
        "supported, development not ready"@
    } else {
        "not supported"@
    }
}

pub open spec fn yes_no(b: bool) -> Seq<char> {
    if b {
        "yes"@
    } else {
        "no"@
    }
}

pub fn yes_no_str(b: bool) -> (r: &'static str)
    ensures
        r@ == yes_no(b),
{
    if b {
        "yes"
    } else {
        "no"
    }
}

/// The loader summary: loaded count, signing support, compression,
/// livepatch.
pub open spec fn loader_text(sys: &SystemSnapshot) -> Seq<char> {
    "loaded="@ + decimal(sys.loader.loaded_count as nat) + " signed="@ + yes_no(
        sys.loader.signed_supported,
    ) + " compression="@ + sys.loader.compression@ + " livepatch="@ + yes_no(
        sys.loader.livepatch_enabled,
    )
}

/// Whether modules are supported and can be developed.
pub struct ModuleSupport;

impl Capability for ModuleSupport {
    open spec fn spec_id(&self) -> Seq<char> {
        "modules.support"@
    }

    open spec fn spec_label(&self) -> Seq<char> {
        "Module Support"@
    }

    open spec fn spec_probe(&self, sys: &SystemSnapshot) -> EvidenceView {
        present_view("modules.support"@, ValueView::Literal(module_support_text(sys)))
    }

    fn id(&self) -> &'static str {
        "modules.support"
    }

    fn label(&self) -> &'static str {
        "Module Support"
    }

    fn probe(&self, sys: &SystemSnapshot) -> Evidence {
        let has_mod = cfg_val(sys, "MODULES").is_enabled();
        let dev_ok = has_mod && sys.headers_available && sys.compiler_available;
        let desc = if has_mod && dev_ok {
            "supported with development environment"
        } else if has_mod {
            "supported, development not ready"
        } else {
            "not supported"
        };
        Evidence::present(self.id(), EvidenceValue::Literal(owned(desc)))
    }
}

/// Module signing is enabled.
pub struct ModuleSigning;

impl Capability for ModuleSigning {
    open spec fn spec_id(&self) -> Seq<char> {
        "modules.signing"@
    }

    open spec fn spec_label(&self) -> Seq<char> {
        "Module Signing"@
    }

    open spec fn spec_probe(&self, sys: &SystemSnapshot) -> EvidenceView {
        present_view(
            "modules.signing"@,
            ValueView::Bool(
                match sys.signing_enabled {
                    Some(s) => s,
                    None => false,
                },
            ),
        )
    }

    fn id(&self) -> &'static str {
        "modules.signing"
    }

    fn label(&self) -> &'static str {
        "Module Signing"
    }

    fn probe(&self, sys: &SystemSnapshot) -> Evidence {
        let signing = match sys.signing_enabled {
            Some(s) => s,
            None => false,
        };
        Evidence::present(self.id(), EvidenceValue::Bool(signing))
    }
}

/// The module loader: loaded modules, signing, compression, livepatch.
pub struct ModuleLoader;

impl Capability for ModuleLoader {
    open spec fn spec_id(&self) -> Seq<char> {
        "modules.loader"@
    }

    open spec fn spec_label(&self) -> Seq<char> {
        "Module Loader"@
    }

    open spec fn spec_probe(&self, sys: &SystemSnapshot) -> EvidenceView {
        present_view("modules.loader"@, ValueView::Literal(loader_text(sys)))
    }

    fn id(&self) -> &'static str {
        "modules.loader"
    }

    fn label(&self) -> &'static str {
        "Module Loader"
    }

    fn probe(&self, sys: &SystemSnapshot) -> Evidence {
        let mut s = owned("loaded=");
        push_decimal(&mut s, sys.loader.loaded_count);
        s.append(" signed=");
        s.append(yes_no_str(sys.loader.signed_supported));
        s.append(" compression=");
        s.append(sys.loader.compression.as_str());
        s.append(" livepatch=");
        s.append(yes_no_str(sys.loader.livepatch_enabled));
        assert(s@ =~= loader_text(sys));
        Evidence::present(self.id(), EvidenceValue::Literal(s))
    }
}

} // verus!
