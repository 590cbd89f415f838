//! Risk engine: identifies risks from evidence.
use crate::evidence::Evidence;
use crate::evidence_helpers::{ev_bool, spec_ev_bool};
use crate::seqs::{cond_seq, lemma_cond4_contains};
use crate::text::owned;
use vstd::prelude::*;

verus! {

/// A risk identified from evidence.
#[derive(Clone, Debug)]
pub struct Risk {
    pub description: String,
    /// "critical", "warning" or "info".
    pub severity: &'static str,
}

/// Mathematical model of a [`Risk`].
pub struct RiskView {
    pub description: Seq<char>,
    pub severity: Seq<char>,
}

impl View for Risk {
    type V = RiskView;

    open spec fn view(&self) -> RiskView {
        RiskView { description: self.description@, severity: self.severity@ }
    }
}

pub open spec fn rust_risk() -> RiskView {
    RiskView {
        description: "CONFIG_RUST not enabled — Rust-for-Linux unavailable"@,
        severity: "warning"@,
    }
}

pub open spec fn modules_risk() -> RiskView {
    RiskView {
        description: "CONFIG_MODULES not set — kernel module support missing"@,
        severity: "critical"@,
    }
}

pub open spec fn kallsyms_risk() -> RiskView {
    RiskView { description: "Kallsyms hidden — symbol analysis limited"@, severity: "warning"@ }
}

pub open spec fn btf_risk() -> RiskView {
    RiskView { description: "CONFIG_DEBUG_INFO_BTF=y but BTF data not found"@, severity: "warning"@ }
}

/// The risks for `ev`, in report order: Rust support missing, module
/// support missing, kallsyms hidden, BTF configured but absent.
pub open spec fn spec_risks(ev: Seq<Evidence>) -> Seq<RiskView> {
    cond_seq(!spec_ev_bool(ev, "config.RUST"@) && !spec_ev_bool(ev, "config.RUST_IS_AVAILABLE"@), rust_risk())
        + cond_seq(!spec_ev_bool(ev, "config.MODULES"@), modules_risk())
        + cond_seq(!spec_ev_bool(ev, "symbols.kallsyms"@), kallsyms_risk())
        + cond_seq(spec_ev_bool(ev, "config.DEBUG_INFO_BTF"@) && !spec_ev_bool(ev, "debug.btf"@), btf_risk())
}

/// Each risk is reported, with its severity, exactly when it applies:
/// Rust support when neither CONFIG_RUST nor CONFIG_RUST_IS_AVAILABLE is
/// on (warning); module support when CONFIG_MODULES is off (critical);
/// kallsyms when the kernel symbols are hidden (warning); BTF when
/// CONFIG_DEBUG_INFO_BTF is on but no BTF data was found (warning).
pub proof fn lemma_risks_reported(ev: Seq<Evidence>)
    ensures
        spec_risks(ev).contains((RiskView { description: "CONFIG_RUST not enabled — Rust-for-Linux unavailable"@, severity: "warning"@ })) <==> (!spec_ev_bool(ev, "config.RUST"@) && !spec_ev_bool(ev, "config.RUST_IS_AVAILABLE"@)),
        spec_risks(ev).contains((RiskView { description: "CONFIG_MODULES not set — kernel module support missing"@, severity: "critical"@ })) <==> (!spec_ev_bool(ev, "config.MODULES"@)),
        spec_risks(ev).contains((RiskView { description: "Kallsyms hidden — symbol analysis limited"@, severity: "warning"@ })) <==> (!spec_ev_bool(ev, "symbols.kallsyms"@)),
        spec_risks(ev).contains((RiskView { description: "CONFIG_DEBUG_INFO_BTF=y but BTF data not found"@, severity: "warning"@ })) <==> (spec_ev_bool(ev, "config.DEBUG_INFO_BTF"@) && !spec_ev_bool(ev, "debug.btf"@)),
{
    reveal_strlit("CONFIG_RUST not enabled — Rust-for-Linux unavailable");
    reveal_strlit("CONFIG_MODULES not set — kernel module support missing");
    reveal_strlit("Kallsyms hidden — symbol analysis limited");
    reveal_strlit("CONFIG_DEBUG_INFO_BTF=y but BTF data not found");
    assert(rust_risk().description.len() == 52 && modules_risk().description.len() == 54
        && kallsyms_risk().description.len() == 41 && btf_risk().description.len() == 46);
    assert(rust_risk() != modules_risk() && rust_risk() != kallsyms_risk() && rust_risk() != btf_risk());
    assert(modules_risk() != kallsyms_risk() && modules_risk() != btf_risk());
    assert(kallsyms_risk() != btf_risk());
    lemma_cond4_contains(
        !spec_ev_bool(ev, "config.RUST"@) && !spec_ev_bool(ev, "config.RUST_IS_AVAILABLE"@),
        rust_risk(),
        !spec_ev_bool(ev, "config.MODULES"@),
        modules_risk(),
        !spec_ev_bool(ev, "symbols.kallsyms"@),
        kallsyms_risk(),
        spec_ev_bool(ev, "config.DEBUG_INFO_BTF"@) && !spec_ev_bool(ev, "debug.btf"@),
        btf_risk(),
    );
}

/// The BTF risk is reported, as a warning, exactly when the configuration
/// enables BTF debug info and no BTF data was found, whatever else the
/// evidence holds.
pub proof fn lemma_btf_risk(ev: Seq<Evidence>)
    ensures
        (exists|i: int|
            0 <= i < spec_risks(ev).len() && (#[trigger] spec_risks(ev)[i]).description
                == "CONFIG_DEBUG_INFO_BTF=y but BTF data not found"@) <==> (spec_ev_bool(
            ev,
            "config.DEBUG_INFO_BTF"@,
        ) && !spec_ev_bool(ev, "debug.btf"@)),
        forall|i: int|
            0 <= i < spec_risks(ev).len() && (#[trigger] spec_risks(ev)[i]).description
                == "CONFIG_DEBUG_INFO_BTF=y but BTF data not found"@ ==> spec_risks(ev)[i].severity
                == "warning"@,
{
    reveal_strlit("CONFIG_RUST not enabled — Rust-for-Linux unavailable");
    reveal_strlit("CONFIG_MODULES not set — kernel module support missing");
    reveal_strlit("Kallsyms hidden — symbol analysis limited");
    reveal_strlit("CONFIG_DEBUG_INFO_BTF=y but BTF data not found");
    let lit = "CONFIG_DEBUG_INFO_BTF=y but BTF data not found"@;
    let a = cond_seq(
        !spec_ev_bool(ev, "config.RUST"@) && !spec_ev_bool(ev, "config.RUST_IS_AVAILABLE"@),
        rust_risk(),
    );
    let b = cond_seq(!spec_ev_bool(ev, "config.MODULES"@), modules_risk());
    let c = cond_seq(!spec_ev_bool(ev, "symbols.kallsyms"@), kallsyms_risk());
    let d = cond_seq(
        spec_ev_bool(ev, "config.DEBUG_INFO_BTF"@) && !spec_ev_bool(ev, "debug.btf"@),
        btf_risk(),
    );
    let s = spec_risks(ev);
    assert(s == a + b + c + d);
    if spec_ev_bool(ev, "config.DEBUG_INFO_BTF"@) && !spec_ev_bool(ev, "debug.btf"@) {
        let k = a.len() + b.len() + c.len();
        assert(s[k as int] == btf_risk());
    }
    assert forall|i: int| 0 <= i < s.len() && (#[trigger] s[i]).description == lit implies i == a.len()
        + b.len() + c.len() && d.len() == 1 by {
        assert(s[i].description.len() == 46);
        if i < a.len() {
            assert(s[i] == a[i]);
        } else if i < a.len() + b.len() {
            assert(s[i] == b[i - a.len()]);
        } else if i < a.len() + b.len() + c.len() {
            assert(s[i] == c[i - a.len() - b.len()]);
        } else {
            assert(s[i] == d[i - a.len() - b.len() - c.len()]);
        }
    }
}

pub open spec fn risk_views(risks: Seq<Risk>) -> Seq<RiskView> {
    risks.map_values(|r: Risk| r@)
}

/// Identify risks from evidence.
pub fn identify_risks(evidence: &[Evidence]) -> (r: Vec<Risk>)
    ensures
        risk_views(r@) == spec_risks(evidence@),
        (exists|i: int|
            0 <= i < r@.len() && (#[trigger] r@[i]).description@
                == "CONFIG_DEBUG_INFO_BTF=y but BTF data not found"@) <==> (spec_ev_bool(
            evidence@,
            "config.DEBUG_INFO_BTF"@,
        ) && !spec_ev_bool(evidence@, "debug.btf"@)),
        forall|i: int|
            0 <= i < r@.len() && (#[trigger] r@[i]).description@
                == "CONFIG_DEBUG_INFO_BTF=y but BTF data not found"@ ==> r@[i].severity@ == "warning"@,        risk_views(r@).contains((RiskView { description: "CONFIG_RUST not enabled — Rust-for-Linux unavailable"@, severity: "warning"@ })) <==> (!spec_ev_bool(evidence@, "config.RUST"@) && !spec_ev_bool(evidence@, "config.RUST_IS_AVAILABLE"@)),
        risk_views(r@).contains((RiskView { description: "CONFIG_MODULES not set — kernel module support missing"@, severity: "critical"@ })) <==> (!spec_ev_bool(evidence@, "config.MODULES"@)),
        risk_views(r@).contains((RiskView { description: "Kallsyms hidden — symbol analysis limited"@, severity: "warning"@ })) <==> (!spec_ev_bool(evidence@, "symbols.kallsyms"@)),
        risk_views(r@).contains((RiskView { description: "CONFIG_DEBUG_INFO_BTF=y but BTF data not found"@, severity: "warning"@ })) <==> (spec_ev_bool(evidence@, "config.DEBUG_INFO_BTF"@) && !spec_ev_bool(evidence@, "debug.btf"@)),
{
    let mut risks: Vec<Risk> = Vec::new();
    let c1 = !ev_bool(evidence, "config.RUST") && !ev_bool(evidence, "config.RUST_IS_AVAILABLE");
    if c1 {
        risks.push(
            Risk {
                description: owned("CONFIG_RUST not enabled — Rust-for-Linux unavailable"),
                severity: "warning",
            },
        );
    }
    let ghost s1 = cond_seq(c1, rust_risk());
    assert(risk_views(risks@) =~= s1);
    let c2 = !ev_bool(evidence, "config.MODULES");
    if c2 {
        risks.push(
            Risk {
                description: owned("CONFIG_MODULES not set — kernel module support missing"),
                severity: "critical",
            },
        );
    }
    let ghost s2 = s1 + cond_seq(c2, modules_risk());
    assert(risk_views(risks@) =~= s2);
    let c3 = !ev_bool(evidence, "symbols.kallsyms");
    if c3 {
        risks.push(
            Risk { description: owned("Kallsyms hidden — symbol analysis limited"), severity: "warning" },
        );
    }
    let ghost s3 = s2 + cond_seq(c3, kallsyms_risk());
    assert(risk_views(risks@) =~= s3);
    let c4 = ev_bool(evidence, "config.DEBUG_INFO_BTF") && !ev_bool(evidence, "debug.btf");
    if c4 {
        risks.push(
            Risk {
                description: owned("CONFIG_DEBUG_INFO_BTF=y but BTF data not found"),
                severity: "warning",
            },
        );
    }
    assert(risk_views(risks@) =~= s3 + cond_seq(c4, btf_risk()));
    proof {
        lemma_btf_risk(evidence@);
        lemma_risks_reported(evidence@);
        let rv = risk_views(risks@);
        assert forall|i: int| 0 <= i < risks@.len() implies (#[trigger] risks@[i])@ == rv[i] by {}
        if spec_ev_bool(evidence@, "config.DEBUG_INFO_BTF"@) && !spec_ev_bool(evidence@, "debug.btf"@) {
            let k = choose|k: int|
                0 <= k < rv.len() && rv[k].description == "CONFIG_DEBUG_INFO_BTF=y but BTF data not found"@;
            assert(risks@[k]@ == rv[k]);
        }
    }
    risks
}

} // verus!
