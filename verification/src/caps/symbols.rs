//! Symbol capabilities: kallsyms, symbol count, vmlinux, Module.symvers.
use crate::capability::{missing_view, present_view, Capability};
use crate::evidence::{Evidence, EvidenceValue, EvidenceView, ValueView};
use crate::snapshot::SystemSnapshot;
use crate::evidence::{format_size, size_text};
use crate::snapshot::VmlinuxFile;
use vstd::prelude::*;

verus! {

/// The kallsyms status label.
pub open spec fn kallsyms_status(sys: &SystemSnapshot) -> Seq<char> {
    if sys.kallsyms.exists && sys.kallsyms.readable {
        if sys.kallsyms.root_only {
            "readable (root)"@
        } else {
            "readable"@
        }
    } else if sys.kallsyms.exists {
        "permission denied"@
    } else {
        "hidden"@
    }
}

/// The vmlinux path, its size in parentheses and its build id, when known.
pub open spec fn vmlinux_text(v: VmlinuxFile) -> Seq<char> {
    v.path@ + match v.size {
        Some(s) => " ("@ + size_text(s as nat) + ")"@,
        None => seq![],
    } + match v.build_id {
        Some(b) => " BuildID="@ + b@,
        None => seq![],
    }
}

/// Visibility of `/proc/kallsyms`.
pub struct KallsymsInfo;

impl Capability for KallsymsInfo {
    open spec fn spec_id(&self) -> Seq<char> {
        "symbols.kallsyms"@
    }

    open spec fn spec_label(&self) -> Seq<char> {
        "Kallsyms"@
    }

    open spec fn spec_probe(&self, sys: &SystemSnapshot) -> EvidenceView {
        present_view("symbols.kallsyms"@, ValueView::Status(kallsyms_status(sys)))
    }

    fn id(&self) -> &'static str {
        "symbols.kallsyms"
    }

    fn label(&self) -> &'static str {
        "Kallsyms"
    }

    fn probe(&self, sys: &SystemSnapshot) -> Evidence {
        let ks = sys.kallsyms;
        let status = if ks.exists && ks.readable {
            if ks.root_only {
                "readable (root)"
            } else {
                "readable"
            }
        } else if ks.exists {
            "permission denied"
        } else {
            "hidden"
        };
        Evidence::present(self.id(), EvidenceValue::Status(status))
    }
}

/// Number of kernel symbols (0 when unknown).
pub struct SymbolCount;

impl Capability for SymbolCount {
    open spec fn spec_id(&self) -> Seq<char> {
        "symbols.count"@
    }

    open spec fn spec_label(&self) -> Seq<char> {
        "Symbol Count"@
    }

    open spec fn spec_probe(&self, sys: &SystemSnapshot) -> EvidenceView {
        present_view(
            "symbols.count"@,
            ValueView::Count(
                match sys.symbol_count {
                    Some(n) => n,
                    None => 0,
                },
            ),
        )
    }

    fn id(&self) -> &'static str {
        "symbols.count"
    }

    fn label(&self) -> &'static str {
        "Symbol Count"
    }

    fn probe(&self, sys: &SystemSnapshot) -> Evidence {
        let n = match sys.symbol_count {
            Some(n) => n,
            None => 0,
        };
        Evidence::present(self.id(), EvidenceValue::Count(n))
    }
}

/// The uncompressed kernel image.
pub struct VmlinuxInfo;

impl Capability for VmlinuxInfo {
    open spec fn spec_id(&self) -> Seq<char> {
        "symbols.vmlinux"@
    }

    open spec fn spec_label(&self) -> Seq<char> {
        "VMLinux"@
    }

    open spec fn spec_probe(&self, sys: &SystemSnapshot) -> EvidenceView {
        match sys.vmlinux {
            Some(v) => present_view("symbols.vmlinux"@, ValueView::Literal(vmlinux_text(v))),
            None => missing_view("symbols.vmlinux"@, ValueView::Text(None)),
        }
    }

    fn id(&self) -> &'static str {
        "symbols.vmlinux"
    }

    fn label(&self) -> &'static str {
        "VMLinux"
    }

    fn probe(&self, sys: &SystemSnapshot) -> Evidence {
        match &sys.vmlinux {
            Some(v) => {
                let mut s = v.path.clone();
                match v.size {
                    Some(sz) => {
                        s.append(" (");
                        s.append(format_size(sz).as_str());
                        s.append(")");
                    },
                    None => {},
                }
                match &v.build_id {
                    Some(b) => {
                        s.append(" BuildID=");
                        s.append(b.as_str());
                    },
                    None => {},
                }
                assert(s@ =~= vmlinux_text(*v));
                Evidence::present(self.id(), EvidenceValue::Literal(s))
            },
            None => Evidence::missing(self.id(), EvidenceValue::Text(None)),
        }
    }
}

/// The Module.symvers file.
pub struct ModuleSymvers;

impl Capability for ModuleSymvers {
    open spec fn spec_id(&self) -> Seq<char> {
        "symbols.symvers"@
    }

    open spec fn spec_label(&self) -> Seq<char> {
        "Module.symvers"@
    }

    open spec fn spec_probe(&self, sys: &SystemSnapshot) -> EvidenceView {
        match sys.module_symvers_path {
            Some(v) => present_view("symbols.symvers"@, ValueView::Text(Some(v@))),
            None => missing_view("symbols.symvers"@, ValueView::Text(None)),
        }
    }

    fn id(&self) -> &'static str {
        "symbols.symvers"
    }

    fn label(&self) -> &'static str {
        "Module.symvers"
    }

    fn probe(&self, sys: &SystemSnapshot) -> Evidence {
        match &sys.module_symvers_path {
            Some(v) => Evidence::present(self.id(), EvidenceValue::Text(Some(v.clone()))),
            None => Evidence::missing(self.id(), EvidenceValue::Text(None)),
        }
    }
}

} // verus!
