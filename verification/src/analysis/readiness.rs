//! Readiness engine: categorized readiness scores from evidence.
//!
//! Each category is scored independently from the same evidence.
use crate::evidence::Evidence;
use crate::evidence_helpers::{ev_bool, ev_status_is, ev_text_known, spec_ev_bool, spec_ev_status_is, spec_ev_text_known};
use crate::seqs::ind;
use vstd::prelude::*;

verus! {

/// Overall readiness assessment.
#[derive(Clone, Debug)]
pub struct Readiness {
    pub overall: &'static str,
    pub stars: &'static str,
    pub categories: Vec<CategoryScore>,
}

/// Star score (0 to 5) of one readiness category.
#[derive(Clone, Debug)]
pub struct CategoryScore {
    pub name: &'static str,
    pub stars: u8,
    pub note: &'static str,
}

pub open spec fn cap5(s: nat) -> u8 {
    if s > 5 {
        5
    } else {
        s as u8
    }
}

/// Kernel stars: kallsyms, modules, BTF (2 when configured and present,
/// 1 when only one holds), plus one for a running kernel.
pub open spec fn spec_kernel_stars(kallsyms: bool, mods: bool, cfg_btf: bool, btf_ok: bool) -> u8 {
    cap5(
        ind(kallsyms) + ind(mods) + (if cfg_btf && btf_ok {
            2nat
        } else if cfg_btf || btf_ok {
            1nat
        } else {
            0nat
        }) + 1,
    )
}

pub open spec fn spec_header_stars(headers: bool, build: bool, source: bool) -> u8 {
    cap5(2 * ind(headers) + ind(build) + 2 * ind(source))
}

pub open spec fn spec_module_dev_stars(mods: bool, headers: bool, sig: bool) -> u8 {
    cap5(2 * ind(mods) + ind(headers) + ind(sig) + 1)
}

pub open spec fn spec_rust_stars(rust_cfg: bool, rust_avail: bool, rustc: bool, bindgen: bool) -> u8 {
    cap5(
        (if rust_cfg {
            3nat
        } else if rust_avail {
            1nat
        } else {
            0nat
        }) + ind(rustc) + ind(bindgen),
    )
}

pub open spec fn spec_debug_stars(debugfs: bool, tracefs: bool, btf: bool, cfg_btf: bool) -> u8 {
    cap5(
        ind(debugfs) + ind(tracefs) + (if btf && cfg_btf {
            2nat
        } else if btf {
            1nat
        } else {
            0nat
        }) + 1,
    )
}

pub open spec fn spec_toolchain_stars(rustc: bool, bindgen: bool, llvm: bool) -> u8 {
    cap5(2 * ind(rustc) + ind(bindgen) + ind(llvm) + 1)
}

/// Kernel category stars for `ev`.
pub open spec fn kernel_category(ev: Seq<Evidence>) -> u8 {
    spec_kernel_stars(
        spec_ev_bool(ev, "symbols.kallsyms"@),
        spec_ev_bool(ev, "config.MODULES"@),
        spec_ev_bool(ev, "config.DEBUG_INFO_BTF"@),
        spec_ev_bool(ev, "debug.btf"@),
    )
}

/// Headers category stars for `ev`.
pub open spec fn headers_category(ev: Seq<Evidence>) -> u8 {
    spec_header_stars(
        spec_ev_status_is(ev, "build.headers"@, "Complete"@),
        spec_ev_text_known(ev, "build.dir"@),
        spec_ev_text_known(ev, "build.source"@),
    )
}

/// Module development category stars for `ev`.
pub open spec fn module_dev_category(ev: Seq<Evidence>) -> u8 {
    spec_module_dev_stars(
        spec_ev_bool(ev, "config.MODULES"@),
        spec_ev_status_is(ev, "build.headers"@, "Complete"@),
        spec_ev_bool(ev, "config.MODULE_SIG"@),
    )
}

/// Rust category stars for `ev`.
pub open spec fn rust_category(ev: Seq<Evidence>) -> u8 {
    spec_rust_stars(
        spec_ev_bool(ev, "config.RUST"@),
        spec_ev_bool(ev, "config.RUST_IS_AVAILABLE"@),
        spec_ev_bool(ev, "toolchain.rustc"@),
        spec_ev_bool(ev, "toolchain.bindgen"@),
    )
}

/// Debug category stars for `ev`.
pub open spec fn debug_category(ev: Seq<Evidence>) -> u8 {
    spec_debug_stars(
        spec_ev_bool(ev, "fs.debugfs"@),
        spec_ev_bool(ev, "fs.tracefs"@),
        spec_ev_bool(ev, "debug.btf"@),
        spec_ev_bool(ev, "config.DEBUG_INFO_BTF"@),
    )
}

/// Toolchain category stars for `ev`.
pub open spec fn toolchain_category(ev: Seq<Evidence>) -> u8 {
    spec_toolchain_stars(
        spec_ev_bool(ev, "toolchain.rustc"@),
        spec_ev_bool(ev, "toolchain.bindgen"@),
        spec_ev_bool(ev, "toolchain.llvm"@),
    )
}

/// Compute all readiness categories from evidence: Kernel, Headers,
/// Module Dev, Rust, Debug and Toolchain, in that order, with empty notes.
pub fn compute_categories(evidence: &[Evidence]) -> (r: Vec<CategoryScore>)
    ensures
        r@.len() == 6,
        r@[0].name@ == "Kernel"@ && r@[0].stars == kernel_category(evidence@),
        r@[1].name@ == "Headers"@ && r@[1].stars == headers_category(evidence@),
        r@[2].name@ == "Module Dev"@ && r@[2].stars == module_dev_category(evidence@),
        r@[3].name@ == "Rust"@ && r@[3].stars == rust_category(evidence@),
        r@[4].name@ == "Debug"@ && r@[4].stars == debug_category(evidence@),
        r@[5].name@ == "Toolchain"@ && r@[5].stars == toolchain_category(evidence@),
        forall|i: int| 0 <= i < 6 ==> (#[trigger] r@[i]).note@ == ""@,
{
    let config_mod = ev_bool(evidence, "config.MODULES");
    let config_btf = ev_bool(evidence, "config.DEBUG_INFO_BTF");
    let btf_ok = ev_bool(evidence, "debug.btf");
    let config_rust = ev_bool(evidence, "config.RUST");
    let rust_avail = ev_bool(evidence, "config.RUST_IS_AVAILABLE");
    let kallsyms = ev_bool(evidence, "symbols.kallsyms");
    let headers = ev_status_is(evidence, "build.headers", "Complete");
    let build_dir = ev_text_known(evidence, "build.dir");
    let source_dir = ev_text_known(evidence, "build.source");
    let debugfs = ev_bool(evidence, "fs.debugfs");
    let tracefs = ev_bool(evidence, "fs.tracefs");
    let rustc = ev_bool(evidence, "toolchain.rustc");
    let bindgen = ev_bool(evidence, "toolchain.bindgen");
    let llvm = ev_bool(evidence, "toolchain.llvm");
    let config_sig = ev_bool(evidence, "config.MODULE_SIG");

    let mut r: Vec<CategoryScore> = Vec::new();
    r.push(
        CategoryScore {
            name: "Kernel",
            stars: kernel_stars(kallsyms, config_mod, config_btf, btf_ok),
            note: "",
        },
    );
    r.push(
        CategoryScore { name: "Headers", stars: header_stars(headers, build_dir, source_dir), note: "" },
    );
    r.push(
        CategoryScore {
            name: "Module Dev",
            stars: module_dev_stars(config_mod, headers, config_sig),
            note: "",
        },
    );
    r.push(
        CategoryScore {
            name: "Rust",
            stars: rust_stars(config_rust, rust_avail, rustc, bindgen),
            note: "",
        },
    );
    r.push(
        CategoryScore {
            name: "Debug",
            stars: debug_stars(debugfs, tracefs, btf_ok, config_btf),
            note: "",
        },
    );
    r.push(CategoryScore { name: "Toolchain", stars: toolchain_stars(rustc, bindgen, llvm), note: "" });
    r
}

fn kernel_stars(kallsyms: bool, mods: bool, cfg_btf: bool, btf_ok: bool) -> (r: u8)
    ensures
        r == spec_kernel_stars(kallsyms, mods, cfg_btf, btf_ok),
{
    let mut s: u8 = 0;
    if kallsyms {
        s += 1;
    }
    if mods {
        s += 1;
    }
    if cfg_btf && btf_ok {
        s += 2;
    } else if cfg_btf || btf_ok {
        s += 1;
    }
    s += 1;
    if s < 5 {
        s
    } else {
        5
    }
}

fn header_stars(headers: bool, build: bool, source: bool) -> (r: u8)
    ensures
        r == spec_header_stars(headers, build, source),
{
    let mut s: u8 = 0;
    if headers {
        s += 2;
    }
    if build {
        s += 1;
    }
    if source {
        s += 2;
    }
    if s < 5 {
        s
    } else {
        5
    }
}

fn module_dev_stars(mods: bool, headers: bool, sig: bool) -> (r: u8)
    ensures
        r == spec_module_dev_stars(mods, headers, sig),
{
    let mut s: u8 = 0;
    if mods {
        s += 2;
    }
    if headers {
        s += 1;
    }
    if sig {
        s += 1;
    }
    s += 1;
    if s < 5 {
        s
    } else {
        5
    }
}

fn rust_stars(rust_cfg: bool, rust_avail: bool, rustc: bool, bindgen: bool) -> (r: u8)
    ensures
        r == spec_rust_stars(rust_cfg, rust_avail, rustc, bindgen),
{
    let mut s: u8 = 0;
    if rust_cfg {
        s += 3;
    } else if rust_avail {
        s += 1;
    }
    if rustc {
        s += 1;
    }
    if bindgen {
        s += 1;
    }
    if s < 5 {
        s
    } else {
        5
    }
}

fn debug_stars(debugfs: bool, tracefs: bool, btf: bool, cfg_btf: bool) -> (r: u8)
    ensures
        r == spec_debug_stars(debugfs, tracefs, btf, cfg_btf),
{
    let mut s: u8 = 0;
    if debugfs {
        s += 1;
    }
    if tracefs {
        s += 1;
    }
    if btf && cfg_btf {
        s += 2;
    } else if btf {
        s += 1;
    }
    s += 1;
    if s < 5 {
        s
    } else {
        5
    }
}

fn toolchain_stars(rustc: bool, bindgen: bool, llvm: bool) -> (r: u8)
    ensures
        r == spec_toolchain_stars(rustc, bindgen, llvm),
{
    let mut s: u8 = 0;
    if rustc {
        s += 2;
    }
    if bindgen {
        s += 1;
    }
    if llvm {
        s += 1;
    }
    s += 1;
    if s < 5 {
        s
    } else {
        5
    }
}

/// Number of categories with at most two stars.
pub open spec fn count_weak(cats: Seq<CategoryScore>) -> nat
    decreases cats.len(),
{
    if cats.len() == 0 {
        0
    } else {
        count_weak(cats.drop_last()) + ind(cats.last().stars <= 2)
    }
}

/// Number of categories with at least four stars.
pub open spec fn count_strong(cats: Seq<CategoryScore>) -> nat
    decreases cats.len(),
{
    if cats.len() == 0 {
        0
    } else {
        count_strong(cats.drop_last()) + ind(cats.last().stars >= 4)
    }
}

/// Sum of the stars of all categories.
pub open spec fn star_total(cats: Seq<CategoryScore>) -> nat
    decreases cats.len(),
{
    if cats.len() == 0 {
        0
    } else {
        star_total(cats.drop_last()) + cats.last().stars as nat
    }
}

/// Overall rating: "Ready" when every category is strong; with at most one
/// weak category, "Mostly Ready" when at least half are strong, otherwise
/// "Needs Work"; with two or more weak categories, "Needs Attention".
pub open spec fn spec_overall_rating(cats: Seq<CategoryScore>) -> Seq<char> {
    let weak = count_weak(cats);
    let strong = count_strong(cats);
    if strong == cats.len() {
        "Ready"@
    } else if weak <= 1 && 2 * strong >= cats.len() {
        "Mostly Ready"@
    } else if weak <= 1 {
        "Needs Work"@
    } else {
        "Needs Attention"@
    }
}

/// Compute overall rating from category scores.
pub fn overall_rating(categories: &[CategoryScore]) -> (r: &'static str)
    ensures
        r@ == spec_overall_rating(categories@),
{
    let mut weak: usize = 0;
    let mut strong: usize = 0;
    let mut i: usize = 0;
    while i < categories.len()
        invariant
            i <= categories@.len(),
            weak == count_weak(categories@.take(i as int)),
            strong == count_strong(categories@.take(i as int)),
            weak <= i,
            strong <= i,
        decreases categories@.len() - i,
    {
        assert(categories@.take(i + 1).drop_last() =~= categories@.take(i as int));
        if categories[i].stars <= 2 {
            weak += 1;
        }
        if categories[i].stars >= 4 {
            strong += 1;
        }
        i += 1;
    }
    assert(categories@.take(categories@.len() as int) =~= categories@);
    let n = categories.len();
    if strong == n {
        "Ready"
    } else if weak <= 1 && strong >= n - strong {
        "Mostly Ready"
    } else if weak <= 1 {
        "Needs Work"
    } else {
        "Needs Attention"
    }
}

/// Star label from the share of stars earned: full, at least 80%, 60% or
/// 40% of the maximum, or below. The maximum is five stars per category,
/// kept to eight bits.
pub open spec fn spec_stars_label(cats: Seq<CategoryScore>) -> Seq<char> {
    let total = star_total(cats);
    let max = (cats.len() * 5) % 256;
    if total >= max {
        "★★★★★"@
    } else if 5 * total >= 4 * max {
        "★★★★☆"@
    } else if 5 * total >= 3 * max {
        "★★★☆☆"@
    } else if 5 * total >= 2 * max {
        "★★☆☆☆"@
    } else {
        "★☆☆☆☆"@
    }
}

/// Compute star label from category scores.
pub fn stars_label(categories: &[CategoryScore]) -> (r: &'static str)
    requires
        star_total(categories@) <= 255,
    ensures
        r@ == spec_stars_label(categories@),
{
    let mut total: u8 = 0;
    let mut i: usize = 0;
    while i < categories.len()
        invariant
            i <= categories@.len(),
            total == star_total(categories@.take(i as int)),
            star_total(categories@) <= 255,
        decreases categories@.len() - i,
    {
        assert(categories@.take(i + 1).drop_last() =~= categories@.take(i as int));
        proof {
            lemma_star_total_prefix(categories@, i + 1);
        }
        total = total + categories[i].stars;
        i += 1;
    }
    assert(categories@.take(categories@.len() as int) =~= categories@);
    let max: u16 = ((categories.len() % 256) as u16 * 5) % 256;
    assert(max == (categories@.len() * 5) % 256) by (nonlinear_arith)
        requires
            max == ((categories@.len() % 256) * 5) % 256,
    ;
    let t: u16 = total as u16;
    if t >= max {
        "★★★★★"
    } else if 5 * t >= 4 * max {
        "★★★★☆"
    } else if 5 * t >= 3 * max {
        "★★★☆☆"
    } else if 5 * t >= 2 * max {
        "★★☆☆☆"
    } else {
        "★☆☆☆☆"
    }
}

/// The stars of a prefix never exceed the stars of the whole list.
pub proof fn lemma_star_total_prefix(cats: Seq<CategoryScore>, n: int)
    requires
        0 <= n <= cats.len(),
    ensures
        star_total(cats.take(n)) <= star_total(cats),
    decreases cats.len() - n,
{
    if n < cats.len() {
        lemma_star_total_prefix(cats, n + 1);
        assert(cats.take(n + 1).drop_last() =~= cats.take(n));
    } else {
        assert(cats.take(n) =~= cats);
    }
}

/// The stars of categories of at most five stars each add up to at most
/// five per category.
pub proof fn lemma_star_total_bound(cats: Seq<CategoryScore>)
    requires
        forall|i: int| 0 <= i < cats.len() ==> (#[trigger] cats[i]).stars <= 5,
    ensures
        star_total(cats) <= 5 * cats.len(),
    decreases cats.len(),
{
    if cats.len() > 0 {
        lemma_star_total_bound(cats.drop_last());
    }
}

/// Every readiness category gets between zero and five stars.
pub proof fn lemma_category_stars_at_most_5(ev: Seq<Evidence>)
    ensures
        kernel_category(ev) <= 5,
        headers_category(ev) <= 5,
        module_dev_category(ev) <= 5,
        rust_category(ev) <= 5,
        debug_category(ev) <= 5,
        toolchain_category(ev) <= 5,
{
}

proof fn lemma_kernel_stars_mono(a1: bool, b1: bool, c1: bool, d1: bool, a2: bool, b2: bool, c2: bool, d2: bool)
    requires
        a1 ==> a2,
        b1 ==> b2,
        c1 ==> c2,
        d1 ==> d2,
    ensures
        spec_kernel_stars(a1, b1, c1, d1) <= spec_kernel_stars(a2, b2, c2, d2),
{
}

proof fn lemma_header_stars_mono(a1: bool, b1: bool, c1: bool, a2: bool, b2: bool, c2: bool)
    requires
        a1 ==> a2,
        b1 ==> b2,
        c1 ==> c2,
    ensures
        spec_header_stars(a1, b1, c1) <= spec_header_stars(a2, b2, c2),
{
}

proof fn lemma_module_dev_stars_mono(a1: bool, b1: bool, c1: bool, a2: bool, b2: bool, c2: bool)
    requires
        a1 ==> a2,
        b1 ==> b2,
        c1 ==> c2,
    ensures
        spec_module_dev_stars(a1, b1, c1) <= spec_module_dev_stars(a2, b2, c2),
{
}

proof fn lemma_rust_stars_mono(a1: bool, b1: bool, c1: bool, d1: bool, a2: bool, b2: bool, c2: bool, d2: bool)
    requires
        a1 ==> a2,
        b1 ==> b2,
        c1 ==> c2,
        d1 ==> d2,
    ensures
        spec_rust_stars(a1, b1, c1, d1) <= spec_rust_stars(a2, b2, c2, d2),
{
}

proof fn lemma_debug_stars_mono(a1: bool, b1: bool, c1: bool, d1: bool, a2: bool, b2: bool, c2: bool, d2: bool)
    requires
        a1 ==> a2,
        b1 ==> b2,
        c1 ==> c2,
        d1 ==> d2,
    ensures
        spec_debug_stars(a1, b1, c1, d1) <= spec_debug_stars(a2, b2, c2, d2),
{
}

proof fn lemma_toolchain_stars_mono(a1: bool, b1: bool, c1: bool, a2: bool, b2: bool, c2: bool)
    requires
        a1 ==> a2,
        b1 ==> b2,
        c1 ==> c2,
    ensures
        spec_toolchain_stars(a1, b1, c1) <= spec_toolchain_stars(a2, b2, c2),
{
}

/// Kernel stars never fall when more of the flags they read hold.
#[verifier::spinoff_prover]
pub proof fn lemma_kernel_stars_monotone(e1: Seq<Evidence>, e2: Seq<Evidence>)
    requires
        spec_ev_bool(e1, "symbols.kallsyms"@) ==> spec_ev_bool(e2, "symbols.kallsyms"@),
        spec_ev_bool(e1, "config.MODULES"@) ==> spec_ev_bool(e2, "config.MODULES"@),
        spec_ev_bool(e1, "config.DEBUG_INFO_BTF"@) ==> spec_ev_bool(e2, "config.DEBUG_INFO_BTF"@),
        spec_ev_bool(e1, "debug.btf"@) ==> spec_ev_bool(e2, "debug.btf"@),
    ensures
        kernel_category(e1) <= kernel_category(e2),
{
    lemma_kernel_stars_mono(spec_ev_bool(e1, "symbols.kallsyms"@), spec_ev_bool(e1, "config.MODULES"@), spec_ev_bool(e1, "config.DEBUG_INFO_BTF"@), spec_ev_bool(e1, "debug.btf"@), spec_ev_bool(e2, "symbols.kallsyms"@), spec_ev_bool(e2, "config.MODULES"@), spec_ev_bool(e2, "config.DEBUG_INFO_BTF"@), spec_ev_bool(e2, "debug.btf"@));
}

/// Headers stars never fall when more of the flags they read hold.
#[verifier::spinoff_prover]
pub proof fn lemma_headers_stars_monotone(e1: Seq<Evidence>, e2: Seq<Evidence>)
    requires
        spec_ev_status_is(e1, "build.headers"@, "Complete"@) ==> spec_ev_status_is(e2, "build.headers"@, "Complete"@),
        spec_ev_text_known(e1, "build.dir"@) ==> spec_ev_text_known(e2, "build.dir"@),
        spec_ev_text_known(e1, "build.source"@) ==> spec_ev_text_known(e2, "build.source"@),
    ensures
        headers_category(e1) <= headers_category(e2),
{
    lemma_header_stars_mono(spec_ev_status_is(e1, "build.headers"@, "Complete"@), spec_ev_text_known(e1, "build.dir"@), spec_ev_text_known(e1, "build.source"@), spec_ev_status_is(e2, "build.headers"@, "Complete"@), spec_ev_text_known(e2, "build.dir"@), spec_ev_text_known(e2, "build.source"@));
}

/// Module Dev stars never fall when more of the flags they read hold.
#[verifier::spinoff_prover]
pub proof fn lemma_module_dev_stars_monotone(e1: Seq<Evidence>, e2: Seq<Evidence>)
    requires
        spec_ev_bool(e1, "config.MODULES"@) ==> spec_ev_bool(e2, "config.MODULES"@),
        spec_ev_status_is(e1, "build.headers"@, "Complete"@) ==> spec_ev_status_is(e2, "build.headers"@, "Complete"@),
        spec_ev_bool(e1, "config.MODULE_SIG"@) ==> spec_ev_bool(e2, "config.MODULE_SIG"@),
    ensures
        module_dev_category(e1) <= module_dev_category(e2),
{
    lemma_module_dev_stars_mono(spec_ev_bool(e1, "config.MODULES"@), spec_ev_status_is(e1, "build.headers"@, "Complete"@), spec_ev_bool(e1, "config.MODULE_SIG"@), spec_ev_bool(e2, "config.MODULES"@), spec_ev_status_is(e2, "build.headers"@, "Complete"@), spec_ev_bool(e2, "config.MODULE_SIG"@));
}

/// Rust stars never fall when more of the flags they read hold.
#[verifier::spinoff_prover]
pub proof fn lemma_rust_stars_monotone(e1: Seq<Evidence>, e2: Seq<Evidence>)
    requires
        spec_ev_bool(e1, "config.RUST"@) ==> spec_ev_bool(e2, "config.RUST"@),
        spec_ev_bool(e1, "config.RUST_IS_AVAILABLE"@) ==> spec_ev_bool(e2, "config.RUST_IS_AVAILABLE"@),
        spec_ev_bool(e1, "toolchain.rustc"@) ==> spec_ev_bool(e2, "toolchain.rustc"@),
        spec_ev_bool(e1, "toolchain.bindgen"@) ==> spec_ev_bool(e2, "toolchain.bindgen"@),
    ensures
        rust_category(e1) <= rust_category(e2),
{
    lemma_rust_stars_mono(spec_ev_bool(e1, "config.RUST"@), spec_ev_bool(e1, "config.RUST_IS_AVAILABLE"@), spec_ev_bool(e1, "toolchain.rustc"@), spec_ev_bool(e1, "toolchain.bindgen"@), spec_ev_bool(e2, "config.RUST"@), spec_ev_bool(e2, "config.RUST_IS_AVAILABLE"@), spec_ev_bool(e2, "toolchain.rustc"@), spec_ev_bool(e2, "toolchain.bindgen"@));
}

/// Debug stars never fall when more of the flags they read hold.
#[verifier::spinoff_prover]
pub proof fn lemma_debug_stars_monotone(e1: Seq<Evidence>, e2: Seq<Evidence>)
    requires
        spec_ev_bool(e1, "fs.debugfs"@) ==> spec_ev_bool(e2, "fs.debugfs"@),
        spec_ev_bool(e1, "fs.tracefs"@) ==> spec_ev_bool(e2, "fs.tracefs"@),
        spec_ev_bool(e1, "debug.btf"@) ==> spec_ev_bool(e2, "debug.btf"@),
        spec_ev_bool(e1, "config.DEBUG_INFO_BTF"@) ==> spec_ev_bool(e2, "config.DEBUG_INFO_BTF"@),
    ensures
        debug_category(e1) <= debug_category(e2),
{
    lemma_debug_stars_mono(spec_ev_bool(e1, "fs.debugfs"@), spec_ev_bool(e1, "fs.tracefs"@), spec_ev_bool(e1, "debug.btf"@), spec_ev_bool(e1, "config.DEBUG_INFO_BTF"@), spec_ev_bool(e2, "fs.debugfs"@), spec_ev_bool(e2, "fs.tracefs"@), spec_ev_bool(e2, "debug.btf"@), spec_ev_bool(e2, "config.DEBUG_INFO_BTF"@));
}

/// Toolchain stars never fall when more of the flags they read hold.
#[verifier::spinoff_prover]
pub proof fn lemma_toolchain_stars_monotone(e1: Seq<Evidence>, e2: Seq<Evidence>)
    requires
        spec_ev_bool(e1, "toolchain.rustc"@) ==> spec_ev_bool(e2, "toolchain.rustc"@),
        spec_ev_bool(e1, "toolchain.bindgen"@) ==> spec_ev_bool(e2, "toolchain.bindgen"@),
        spec_ev_bool(e1, "toolchain.llvm"@) ==> spec_ev_bool(e2, "toolchain.llvm"@),
    ensures
        toolchain_category(e1) <= toolchain_category(e2),
{
    lemma_toolchain_stars_mono(spec_ev_bool(e1, "toolchain.rustc"@), spec_ev_bool(e1, "toolchain.bindgen"@), spec_ev_bool(e1, "toolchain.llvm"@), spec_ev_bool(e2, "toolchain.rustc"@), spec_ev_bool(e2, "toolchain.bindgen"@), spec_ev_bool(e2, "toolchain.llvm"@));
}

} // verus!
