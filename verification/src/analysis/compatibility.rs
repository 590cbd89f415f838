//! Compatibility engine: scores how ready the system is for kernel
//! development, what blocks it, and what to do next.
//!
//! Consumes evidence only; never probes the system.
use crate::evidence::Evidence;
use crate::evidence_helpers::{
    ev_bool, ev_count, ev_literal, ev_s, ev_status_is, ev_text_known, ev_text_value, spec_ev_bool,
    spec_ev_count, spec_ev_s, spec_ev_status_is, spec_ev_text_known, spec_ev_text_value,
};
use crate::seqs::{cond_seq, ind};
use vstd::seq_lib::lemma_concat_associative;
use crate::text::{concat2, concat3, join, join_strs, owned, str_eq, views};
use vstd::prelude::*;

verus! {

/// Confidence level in the assessment.
#[derive(Clone, Copy, Debug, PartialEq, Eq, Structural)]
pub enum Confidence {
    High,
    Medium,
    Low,
}

impl Confidence {
    pub open spec fn spec_label(self) -> Seq<char> {
        match self {
            Confidence::High => "High"@,
            Confidence::Medium => "Medium"@,
            Confidence::Low => "Low"@,
        }
    }

    pub fn label(self) -> (r: &'static str)
        ensures
            r@ == self.spec_label(),
    {
        match self {
            Confidence::High => "High",
            Confidence::Medium => "Medium",
            Confidence::Low => "Low",
        }
    }
}

/// Overall risk level.
#[derive(Clone, Copy, Debug, PartialEq, Eq, Structural)]
pub enum RiskLevel {
    NoRisk,
    Low,
    Warning,
    Critical,
}

impl RiskLevel {
    pub open spec fn spec_label(self) -> Seq<char> {
        match self {
            RiskLevel::NoRisk => "None"@,
            RiskLevel::Low => "Low"@,
            RiskLevel::Warning => "Warning"@,
            RiskLevel::Critical => "Critical"@,
        }
    }

    pub fn label(self) -> (r: &'static str)
        ensures
            r@ == self.spec_label(),
    {
        match self {
            RiskLevel::NoRisk => "None",
            RiskLevel::Low => "Low",
            RiskLevel::Warning => "Warning",
            RiskLevel::Critical => "Critical",
        }
    }
}

/// Weight of a component in the overall score, in hundredths (all weights
/// together make 100).
#[derive(Clone, Debug)]
pub struct ComponentWeight {
    pub name: &'static str,
    pub weight_percent: u8,
}

/// A scored component of the assessment.
#[derive(Clone, Debug)]
pub struct ComponentScore {
    pub name: &'static str,
    /// 0 to 100.
    pub score: u8,
    pub status: ComponentStatus,
    pub detail: String,
}

/// Mathematical model of a [`ComponentScore`].
pub struct ComponentView {
    pub name: Seq<char>,
    pub score: u8,
    pub status: ComponentStatus,
    pub detail: Seq<char>,
}

impl View for ComponentScore {
    type V = ComponentView;

    open spec fn view(&self) -> ComponentView {
        ComponentView {
            name: self.name@,
            score: self.score,
            status: self.status,
            detail: self.detail@,
        }
    }
}

#[derive(Clone, Copy, Debug, PartialEq, Eq, Structural)]
pub enum ComponentStatus {
    Good,
    Partial,
    Missing,
    Blocking,
}

impl ComponentStatus {
    pub open spec fn spec_label(self) -> Seq<char> {
        match self {
            ComponentStatus::Good => "good"@,
            ComponentStatus::Partial => "partial"@,
            ComponentStatus::Missing => "missing"@,
            ComponentStatus::Blocking => "blocking"@,
        }
    }

    pub fn label(self) -> (r: &'static str)
        ensures
            r@ == self.spec_label(),
    {
        match self {
            ComponentStatus::Good => "good",
            ComponentStatus::Partial => "partial",
            ComponentStatus::Missing => "missing",
            ComponentStatus::Blocking => "blocking",
        }
    }
}

pub open spec fn cv(name: Seq<char>, score: u8, status: ComponentStatus, detail: Seq<char>) -> ComponentView {
    ComponentView { name, score, status, detail }
}

// ---------------------------------------------------------------------------
//  Component specifications
// ---------------------------------------------------------------------------

#[verifier::opaque]
pub open spec fn headers_component(ev: Seq<Evidence>) -> ComponentView {
    let release = spec_ev_s(ev, "kernel.release"@);
    if spec_ev_status_is(ev, "build.headers"@, "Complete"@) {
        cv(
            "Kernel Headers"@,
            100,
            ComponentStatus::Good,
            "Headers match running kernel ("@ + release + ")"@,
        )
    } else if spec_ev_status_is(ev, "build.headers"@, "Partial"@) {
        cv(
            "Kernel Headers"@,
            40,
            ComponentStatus::Partial,
            "Headers found but incomplete for "@ + release,
        )
    } else {
        cv(
            "Kernel Headers"@,
            0,
            ComponentStatus::Blocking,
            "Kernel headers not installed — required for module development"@,
        )
    }
}

#[verifier::opaque]
pub open spec fn build_env_component(ev: Seq<Evidence>) -> ComponentView {
    let build_dir = spec_ev_text_known(ev, "build.dir"@);
    let source_dir = spec_ev_text_known(ev, "build.source"@);
    let compile_cmds = spec_ev_bool(ev, "build.compile_commands"@);
    let score = 40 * ind(build_dir) + 40 * ind(source_dir) + 20 * ind(compile_cmds);
    let parts = cond_seq(build_dir, "build dir"@) + cond_seq(source_dir, "source tree"@) + cond_seq(
        compile_cmds,
        "compile_commands.json"@,
    );
    cv(
        "Build Environment"@,
        score as u8,
        if score >= 80 {
            ComponentStatus::Good
        } else if score >= 40 {
            ComponentStatus::Partial
        } else {
            ComponentStatus::Missing
        },
        if parts.len() == 0 {
            "No build environment components found"@
        } else {
            "Found: "@ + join(parts, ", "@)
        },
    )
}

pub open spec fn config_available(ev: Seq<Evidence>) -> bool {
    spec_ev_text_value(ev, "config.source"@) is Some
}

#[verifier::opaque]
pub open spec fn kernel_config_component(ev: Seq<Evidence>) -> ComponentView {
    let modules = spec_ev_bool(ev, "config.MODULES"@);
    let mod_sig = spec_ev_bool(ev, "config.MODULE_SIG"@);
    let bpf = spec_ev_bool(ev, "config.BPF"@);
    let kallsyms = spec_ev_bool(ev, "config.KALLSYMS"@);
    let livepatch = spec_ev_bool(ev, "config.LIVEPATCH"@);
    if !config_available(ev) {
        cv(
            "Kernel Configuration"@,
            10,
            ComponentStatus::Blocking,
            "Cannot read kernel config — most checks impossible"@,
        )
    } else {
        let score = 30 + 30 * ind(modules) + 10 * ind(mod_sig) + 10 * ind(bpf) + 10 * ind(kallsyms)
            + 10 * ind(livepatch);
        let missing = cond_seq(!modules, "MODULES"@) + cond_seq(!mod_sig, "MODULE_SIG"@) + cond_seq(
            !bpf,
            "BPF"@,
        ) + cond_seq(!kallsyms, "KALLSYMS"@);
        cv(
            "Kernel Configuration"@,
            (if score > 100 {
                100
            } else {
                score
            }) as u8,
            if modules {
                ComponentStatus::Good
            } else {
                ComponentStatus::Blocking
            },
            if missing.len() == 0 {
                "All key config options enabled"@
            } else {
                "Missing: "@ + join(missing, ", "@)
            },
        )
    }
}

#[verifier::opaque]
pub open spec fn modules_component(ev: Seq<Evidence>) -> ComponentView {
    let mod_support = spec_ev_bool(ev, "config.MODULES"@);
    let signing = spec_ev_bool(ev, "config.MODULE_SIG"@);
    let loader = spec_ev_text_value(ev, "modules.loader"@);
    if !config_available(ev) {
        cv(
            "Module Environment"@,
            0,
            ComponentStatus::Missing,
            "Config not available — cannot assess module support"@,
        )
    } else {
        cv(
            "Module Environment"@,
            (50 * ind(mod_support) + 25 * ind(signing) + 25 * ind(loader is Some)) as u8,
            if mod_support {
                ComponentStatus::Good
            } else {
                ComponentStatus::Blocking
            },
            if mod_support {
                "Module support enabled"@
            } else {
                "CONFIG_MODULES not set — cannot build kernel modules"@
            },
        )
    }
}

/// `/proc/kallsyms` was reported readable (as any user or as root).
pub open spec fn kallsyms_readable(ev: Seq<Evidence>) -> bool {
    spec_ev_status_is(ev, "symbols.kallsyms"@, "readable"@) || spec_ev_status_is(
        ev,
        "symbols.kallsyms"@,
        "readable (root)"@,
    )
}

/// The list joined with ", ", or "none" when empty.
pub open spec fn list_or_none(parts: Seq<Seq<char>>) -> Seq<char> {
    if parts.len() == 0 {
        "none"@
    } else {
        join(parts, ", "@)
    }
}

#[verifier::opaque]
pub open spec fn symbols_component(ev: Seq<Evidence>) -> ComponentView {
    let ks_ok = kallsyms_readable(ev);
    let syms = spec_ev_count(ev, "symbols.count"@) != "0"@;
    let vmlinux = spec_ev_text_value(ev, "symbols.vmlinux"@) is Some;
    let symvers = spec_ev_text_value(ev, "symbols.symvers"@) is Some;
    let score = 35 * ind(ks_ok) + 15 * ind(syms) + 25 * ind(vmlinux) + 25 * ind(symvers);
    let found = cond_seq(ks_ok, "kallsyms"@) + cond_seq(syms, "symbols"@) + cond_seq(
        vmlinux,
        "vmlinux"@,
    ) + cond_seq(symvers, "symvers"@);
    let missing = cond_seq(!ks_ok, "kallsyms"@) + cond_seq(!syms, "symbols"@) + cond_seq(
        !vmlinux,
        "vmlinux"@,
    ) + cond_seq(!symvers, "symvers"@);
    cv(
        "Symbol Information"@,
        score as u8,
        if ks_ok {
            ComponentStatus::Good
        } else if score > 0 {
            ComponentStatus::Partial
        } else {
            ComponentStatus::Missing
        },
        "Found: "@ + list_or_none(found) + ". Missing: "@ + list_or_none(missing),
    )
}

#[verifier::opaque]
pub open spec fn rust_component(ev: Seq<Evidence>) -> ComponentView {
    let rust_cfg = spec_ev_bool(ev, "config.RUST"@);
    let rust_avail = spec_ev_bool(ev, "config.RUST_IS_AVAILABLE"@);
    let rustc = spec_ev_bool(ev, "toolchain.rustc"@);
    let bindgen = spec_ev_bool(ev, "toolchain.bindgen"@);
    if !config_available(ev) {
        cv(
            "Rust for Linux"@,
            0,
            ComponentStatus::Missing,
            "Cannot check Rust config — kernel config not available"@,
        )
    } else {
        let base: nat = if rust_cfg {
            50
        } else if rust_avail {
            25
        } else {
            0
        };
        let first: Seq<char> = if rust_cfg {
            "CONFIG_RUST=y"@
        } else if rust_avail {
            "compiler available, CONFIG_RUST not set"@
        } else {
            "Rust support not enabled"@
        };
        let notes = seq![first] + cond_seq(rustc, "rustc installed"@) + cond_seq(
            bindgen,
            "bindgen installed"@,
        );
        cv(
            "Rust for Linux"@,
            (base + 25 * ind(rustc) + 25 * ind(bindgen)) as u8,
            if rust_cfg && rustc && bindgen {
                ComponentStatus::Good
            } else if rust_avail || rustc {
                ComponentStatus::Partial
            } else {
                ComponentStatus::Missing
            },
            join(notes, ", "@),
        )
    }
}

#[verifier::opaque]
pub open spec fn toolchain_component(ev: Seq<Evidence>) -> ComponentView {
    let rustc = spec_ev_bool(ev, "toolchain.rustc"@);
    let bindgen = spec_ev_bool(ev, "toolchain.bindgen"@);
    let llvm = spec_ev_bool(ev, "toolchain.llvm"@);
    let make = spec_ev_bool(ev, "toolchain.make"@);
    let gcc = spec_ev_bool(ev, "toolchain.gcc"@);
    let missing = cond_seq(!gcc, "gcc"@) + cond_seq(!make, "make"@);
    cv(
        "Toolchain"@,
        (30 * ind(gcc) + 15 * ind(make) + 20 * ind(rustc) + 15 * ind(bindgen) + 20 * ind(
            llvm,
        )) as u8,
        if gcc && make {
            ComponentStatus::Good
        } else if gcc {
            ComponentStatus::Partial
        } else {
            ComponentStatus::Blocking
        },
        if missing.len() == 0 {
            "All core tools available"@
        } else {
            "Missing: "@ + join(missing, ", "@)
        },
    )
}

#[verifier::opaque]
pub open spec fn debug_component(ev: Seq<Evidence>) -> ComponentView {
    let btf = spec_ev_bool(ev, "debug.btf"@);
    let dwarf = spec_ev_bool(ev, "debug.dwarf"@);
    let cfg_btf = spec_ev_bool(ev, "config.DEBUG_INFO_BTF"@);
    let base: nat = if btf {
        50
    } else if cfg_btf {
        20
    } else {
        0
    };
    let notes = (if btf {
        seq!["BTF available"@]
    } else if cfg_btf {
        seq!["BTF configured but data missing"@]
    } else {
        Seq::<Seq<char>>::empty()
    }) + cond_seq(dwarf, "DWARF available"@);
    cv(
        "Debug Capabilities"@,
        (base + 50 * ind(dwarf)) as u8,
        if btf && dwarf {
            ComponentStatus::Good
        } else if btf || dwarf {
            ComponentStatus::Partial
        } else {
            ComponentStatus::Missing
        },
        if notes.len() == 0 {
            "No debug data available"@
        } else {
            join(notes, ", "@)
        },
    )
}

pub open spec fn mount_word(b: bool) -> Seq<char> {
    if b {
        "mounted"@
    } else {
        "not mounted"@
    }
}

#[verifier::opaque]
pub open spec fn mounts_component(ev: Seq<Evidence>) -> ComponentView {
    let debugfs = spec_ev_bool(ev, "fs.debugfs"@);
    let tracefs = spec_ev_bool(ev, "fs.tracefs"@);
    let score = 50 * ind(debugfs) + 50 * ind(tracefs);
    cv(
        "Filesystem Mounts"@,
        score as u8,
        if score == 100 {
            ComponentStatus::Good
        } else if score >= 50 {
            ComponentStatus::Partial
        } else {
            ComponentStatus::Missing
        },
        "debugfs: "@ + mount_word(debugfs) + ", tracefs: "@ + mount_word(tracefs),
    )
}

// ---------------------------------------------------------------------------
//  Component scoring
// ---------------------------------------------------------------------------

fn score_kernel_headers(evidence: &[Evidence]) -> (r: ComponentScore)
    ensures
        r@ == headers_component(evidence@),
{
    reveal(headers_component);
    let headers_ok = ev_status_is(evidence, "build.headers", "Complete");
    let headers_partial = ev_status_is(evidence, "build.headers", "Partial");
    let release = ev_s(evidence, "kernel.release");
    if headers_ok {
        ComponentScore {
            name: "Kernel Headers",
            score: 100,
            status: ComponentStatus::Good,
            detail: concat3("Headers match running kernel (", release.as_str(), ")"),
        }
    } else if headers_partial {
        ComponentScore {
            name: "Kernel Headers",
            score: 40,
            status: ComponentStatus::Partial,
            detail: concat2("Headers found but incomplete for ", release.as_str()),
        }
    } else {
        ComponentScore {
            name: "Kernel Headers",
            score: 0,
            status: ComponentStatus::Blocking,
            detail: owned("Kernel headers not installed — required for module development"),
        }
    }
}

fn score_build_env(evidence: &[Evidence]) -> (r: ComponentScore)
    ensures
        r@ == build_env_component(evidence@),
{
    reveal(build_env_component);
    let build_dir = ev_text_known(evidence, "build.dir");
    let source_dir = ev_text_known(evidence, "build.source");
    let compile_cmds = ev_bool(evidence, "build.compile_commands");

    let mut score: u8 = 0;
    if build_dir {
        score += 40;
    }
    if source_dir {
        score += 40;
    }
    if compile_cmds {
        score += 20;
    }
    let status = if score >= 80 {
        ComponentStatus::Good
    } else if score >= 40 {
        ComponentStatus::Partial
    } else {
        ComponentStatus::Missing
    };
    let mut parts: Vec<&str> = Vec::new();
    if build_dir {
        parts.push("build dir");
    }
    if source_dir {
        parts.push("source tree");
    }
    if compile_cmds {
        parts.push("compile_commands.json");
    }
    assert(views(parts@) =~= cond_seq(build_dir, "build dir"@) + cond_seq(source_dir, "source tree"@)
        + cond_seq(compile_cmds, "compile_commands.json"@));
    let detail = if parts.len() == 0 {
        owned("No build environment components found")
    } else {
        let joined = join_strs(&parts, ", ");
        concat2("Found: ", joined.as_str())
    };
    ComponentScore { name: "Build Environment", score, status, detail }
}

fn score_kernel_config(evidence: &[Evidence]) -> (r: ComponentScore)
    ensures
        r@ == kernel_config_component(evidence@),
{
    reveal(kernel_config_component);
    let config_available = ev_text_value(evidence, "config.source").is_some();
    let modules = ev_bool(evidence, "config.MODULES");
    let mod_sig = ev_bool(evidence, "config.MODULE_SIG");
    let bpf = ev_bool(evidence, "config.BPF");
    let kallsyms = ev_bool(evidence, "config.KALLSYMS");
    let livepatch = ev_bool(evidence, "config.LIVEPATCH");

    if !config_available {
        return ComponentScore {
            name: "Kernel Configuration",
            score: 10,
            status: ComponentStatus::Blocking,
            detail: owned("Cannot read kernel config — most checks impossible"),
        };
    }
    let mut score: u8 = 30;
    if modules {
        score += 30;
    }
    if mod_sig {
        score += 10;
    }
    if bpf {
        score += 10;
    }
    if kallsyms {
        score += 10;
    }
    if livepatch {
        score += 10;
    }
    let mut missing: Vec<&str> = Vec::new();
    if !modules {
        missing.push("MODULES");
    }
    if !mod_sig {
        missing.push("MODULE_SIG");
    }
    if !bpf {
        missing.push("BPF");
    }
    if !kallsyms {
        missing.push("KALLSYMS");
    }
    assert(views(missing@) =~= cond_seq(!modules, "MODULES"@) + cond_seq(!mod_sig, "MODULE_SIG"@)
        + cond_seq(!bpf, "BPF"@) + cond_seq(!kallsyms, "KALLSYMS"@));
    let detail = if missing.len() == 0 {
        owned("All key config options enabled")
    } else {
        let joined = join_strs(&missing, ", ");
        concat2("Missing: ", joined.as_str())
    };
    ComponentScore {
        name: "Kernel Configuration",
        score: if score > 100 {
            100
        } else {
            score
        },
        status: if modules {
            ComponentStatus::Good
        } else {
            ComponentStatus::Blocking
        },
        detail,
    }
}

fn score_modules(evidence: &[Evidence]) -> (r: ComponentScore)
    ensures
        r@ == modules_component(evidence@),
{
    reveal(modules_component);
    let cfg_available = ev_text_value(evidence, "config.source").is_some();
    let mod_support = ev_bool(evidence, "config.MODULES");
    let signing = ev_bool(evidence, "config.MODULE_SIG");
    let loader = ev_text_value(evidence, "modules.loader");

    if !cfg_available {
        return ComponentScore {
            name: "Module Environment",
            score: 0,
            status: ComponentStatus::Missing,
            detail: owned("Config not available — cannot assess module support"),
        };
    }
    let mut score: u8 = 0;
    if mod_support {
        score += 50;
    }
    if signing {
        score += 25;
    }
    if loader.is_some() {
        score += 25;
    }
    ComponentScore {
        name: "Module Environment",
        score,
        status: if mod_support {
            ComponentStatus::Good
        } else {
            ComponentStatus::Blocking
        },
        detail: if mod_support {
            owned("Module support enabled")
        } else {
            owned("CONFIG_MODULES not set — cannot build kernel modules")
        },
    }
}

/// The joined list, or "none" when empty.
fn joined_or_none(parts: &Vec<&str>) -> (r: String)
    ensures
        r@ == list_or_none(views(parts@)),
{
    if parts.len() == 0 {
        owned("none")
    } else {
        join_strs(parts, ", ")
    }
}

fn score_symbols(evidence: &[Evidence]) -> (r: ComponentScore)
    ensures
        r@ == symbols_component(evidence@),
{
    reveal(symbols_component);
    let ks_ok = ev_status_is(evidence, "symbols.kallsyms", "readable") || ev_status_is(
        evidence,
        "symbols.kallsyms",
        "readable (root)",
    );
    let sym_count = ev_count(evidence, "symbols.count");
    let vmlinux = ev_literal(evidence, "symbols.vmlinux");
    let symvers = ev_text_value(evidence, "symbols.symvers");
    let syms = !str_eq(sym_count.as_str(), "0");

    let mut score: u8 = 0;
    let mut found: Vec<&str> = Vec::new();
    let mut missing: Vec<&str> = Vec::new();
    if ks_ok {
        score += 35;
        found.push("kallsyms");
    } else {
        missing.push("kallsyms");
    }
    if syms {
        score += 15;
        found.push("symbols");
    } else {
        missing.push("symbols");
    }
    if vmlinux.is_some() {
        score += 25;
        found.push("vmlinux");
    } else {
        missing.push("vmlinux");
    }
    if symvers.is_some() {
        score += 25;
        found.push("symvers");
    } else {
        missing.push("symvers");
    }
    let ghost vm = spec_ev_text_value(evidence@, "symbols.vmlinux"@) is Some;
    let ghost sv = spec_ev_text_value(evidence@, "symbols.symvers"@) is Some;
    assert(views(found@) =~= cond_seq(ks_ok, "kallsyms"@) + cond_seq(syms, "symbols"@) + cond_seq(
        vm,
        "vmlinux"@,
    ) + cond_seq(sv, "symvers"@));
    assert(views(missing@) =~= cond_seq(!ks_ok, "kallsyms"@) + cond_seq(!syms, "symbols"@)
        + cond_seq(!vm, "vmlinux"@) + cond_seq(!sv, "symvers"@));
    let status = if ks_ok {
        ComponentStatus::Good
    } else if score > 0 {
        ComponentStatus::Partial
    } else {
        ComponentStatus::Missing
    };
    let found_str = joined_or_none(&found);
    let missing_str = joined_or_none(&missing);
    let mut detail = concat2("Found: ", found_str.as_str());
    detail.append(". Missing: ");
    detail.append(missing_str.as_str());
    ComponentScore { name: "Symbol Information", score, status, detail }
}

fn score_rust_support(evidence: &[Evidence]) -> (r: ComponentScore)
    ensures
        r@ == rust_component(evidence@),
{
    reveal(rust_component);
    let rust_cfg = ev_bool(evidence, "config.RUST");
    let rust_avail = ev_bool(evidence, "config.RUST_IS_AVAILABLE");
    let rustc = ev_bool(evidence, "toolchain.rustc");
    let bindgen = ev_bool(evidence, "toolchain.bindgen");
    let cfg_available = ev_text_value(evidence, "config.source").is_some();

    if !cfg_available {
        return ComponentScore {
            name: "Rust for Linux",
            score: 0,
            status: ComponentStatus::Missing,
            detail: owned("Cannot check Rust config — kernel config not available"),
        };
    }
    let mut score: u8 = 0;
    let mut notes: Vec<&str> = Vec::new();
    if rust_cfg {
        score += 50;
        notes.push("CONFIG_RUST=y");
    } else if rust_avail {
        score += 25;
        notes.push("compiler available, CONFIG_RUST not set");
    } else {
        notes.push("Rust support not enabled");
    }
    let ghost first = notes@[0]@;
    if rustc {
        score += 25;
        notes.push("rustc installed");
    }
    if bindgen {
        score += 25;
        notes.push("bindgen installed");
    }
    assert(views(notes@) =~= seq![first] + cond_seq(rustc, "rustc installed"@) + cond_seq(
        bindgen,
        "bindgen installed"@,
    ));
    ComponentScore {
        name: "Rust for Linux",
        score,
        status: if rust_cfg && rustc && bindgen {
            ComponentStatus::Good
        } else if rust_avail || rustc {
            ComponentStatus::Partial
        } else {
            ComponentStatus::Missing
        },
        detail: join_strs(&notes, ", "),
    }
}

fn score_toolchain(evidence: &[Evidence]) -> (r: ComponentScore)
    ensures
        r@ == toolchain_component(evidence@),
{
    reveal(toolchain_component);
    let rustc = ev_bool(evidence, "toolchain.rustc");
    let bindgen = ev_bool(evidence, "toolchain.bindgen");
    let llvm = ev_bool(evidence, "toolchain.llvm");
    let make = ev_bool(evidence, "toolchain.make");
    let gcc = ev_bool(evidence, "toolchain.gcc");

    let mut score: u8 = 0;
    let mut missing: Vec<&str> = Vec::new();
    if gcc {
        score += 30;
    } else {
        missing.push("gcc");
    }
    if make {
        score += 15;
    } else {
        missing.push("make");
    }
    if rustc {
        score += 20;
    }
    if bindgen {
        score += 15;
    }
    if llvm {
        score += 20;
    }
    assert(views(missing@) =~= cond_seq(!gcc, "gcc"@) + cond_seq(!make, "make"@));
    ComponentScore {
        name: "Toolchain",
        score,
        status: if gcc && make {
            ComponentStatus::Good
        } else if gcc {
            ComponentStatus::Partial
        } else {
            ComponentStatus::Blocking
        },
        detail: if missing.len() == 0 {
            owned("All core tools available")
        } else {
            let joined = join_strs(&missing, ", ");
            concat2("Missing: ", joined.as_str())
        },
    }
}

fn score_debug_capabilities(evidence: &[Evidence]) -> (r: ComponentScore)
    ensures
        r@ == debug_component(evidence@),
{
    reveal(debug_component);
    let btf = ev_bool(evidence, "debug.btf");
    let dwarf = ev_bool(evidence, "debug.dwarf");
    let cfg_btf = ev_bool(evidence, "config.DEBUG_INFO_BTF");

    let mut score: u8 = 0;
    let mut notes: Vec<&str> = Vec::new();
    if btf {
        score += 50;
        notes.push("BTF available");
    } else if cfg_btf {
        score += 20;
        notes.push("BTF configured but data missing");
    }
    let ghost head = views(notes@);
    assert(head =~= (if btf {
        seq!["BTF available"@]
    } else if cfg_btf {
        seq!["BTF configured but data missing"@]
    } else {
        Seq::<Seq<char>>::empty()
    }));
    if dwarf {
        score += 50;
        notes.push("DWARF available");
    }
    assert(views(notes@) =~= head + cond_seq(dwarf, "DWARF available"@));
    ComponentScore {
        name: "Debug Capabilities",
        score,
        status: if btf && dwarf {
            ComponentStatus::Good
        } else if btf || dwarf {
            ComponentStatus::Partial
        } else {
            ComponentStatus::Missing
        },
        detail: if notes.len() == 0 {
            owned("No debug data available")
        } else {
            join_strs(&notes, ", ")
        },
    }
}

fn score_filesystem_mounts(evidence: &[Evidence]) -> (r: ComponentScore)
    ensures
        r@ == mounts_component(evidence@),
{
    reveal(mounts_component);
    let debugfs = ev_bool(evidence, "fs.debugfs");
    let tracefs = ev_bool(evidence, "fs.tracefs");
    let mut score: u8 = 0;
    if debugfs {
        score += 50;
    }
    if tracefs {
        score += 50;
    }
    let mut detail = owned("debugfs: ");
    detail.append(
        if debugfs {
            "mounted"
        } else {
            "not mounted"
        },
    );
    detail.append(", tracefs: ");
    detail.append(
        if tracefs {
            "mounted"
        } else {
            "not mounted"
        },
    );
    ComponentScore {
        name: "Filesystem Mounts",
        score,
        status: if score == 100 {
            ComponentStatus::Good
        } else if score >= 50 {
            ComponentStatus::Partial
        } else {
            ComponentStatus::Missing
        },
        detail,
    }
}


// ---------------------------------------------------------------------------
//  Blocking issues, actions and the overall assessment
// ---------------------------------------------------------------------------

/// An issue that must be resolved before kernel development.
#[derive(Clone, Debug)]
pub struct BlockingIssue {
    pub component: &'static str,
    pub description: String,
    /// "critical" or "warning".
    pub severity: &'static str,
}

pub struct BlockingView {
    pub component: Seq<char>,
    pub description: Seq<char>,
    pub severity: Seq<char>,
}

impl View for BlockingIssue {
    type V = BlockingView;

    open spec fn view(&self) -> BlockingView {
        BlockingView {
            component: self.component@,
            description: self.description@,
            severity: self.severity@,
        }
    }
}

/// A recommended action with estimated effort.
#[derive(Clone, Debug)]
pub struct RecommendedAction {
    /// 1 is the highest priority.
    pub priority: u8,
    pub action: String,
    pub estimated_minutes: u32,
    pub component: &'static str,
}

pub struct ActionView {
    pub priority: u8,
    pub action: Seq<char>,
    pub estimated_minutes: u32,
    pub component: Seq<char>,
}

impl View for RecommendedAction {
    type V = ActionView;

    open spec fn view(&self) -> ActionView {
        ActionView {
            priority: self.priority,
            action: self.action@,
            estimated_minutes: self.estimated_minutes,
            component: self.component@,
        }
    }
}

/// Full compatibility assessment.
#[derive(Clone, Debug)]
pub struct Compatibility {
    /// Overall compatibility score 0-100.
    pub score: u8,
    /// Human-readable level label.
    pub level: &'static str,
    /// Confidence in this assessment.
    pub confidence: Confidence,
    /// Overall risk level.
    pub risk: RiskLevel,
    /// Per-component scores.
    pub components: Vec<ComponentScore>,
    /// Weights used for the overall score.
    pub weights: Vec<ComponentWeight>,
    /// Issues that block kernel development.
    pub blocking_issues: Vec<BlockingIssue>,
    /// Recommended next actions, ordered by priority.
    pub recommended_actions: Vec<RecommendedAction>,
    /// Total estimated fix time in minutes.
    pub estimated_fix_minutes: u32,
    /// Components that need attention.
    pub affected_components: Vec<&'static str>,
    /// The single most impactful next action.
    pub next_best_action: String,
}

pub open spec fn component_views(cs: Seq<ComponentScore>) -> Seq<ComponentView> {
    cs.map_values(|c: ComponentScore| c@)
}

pub open spec fn blocking_views(bs: Seq<BlockingIssue>) -> Seq<BlockingView> {
    bs.map_values(|b: BlockingIssue| b@)
}

pub open spec fn action_views(acts: Seq<RecommendedAction>) -> Seq<ActionView> {
    acts.map_values(|a: RecommendedAction| a@)
}

/// The nine components of the assessment, in report order.
pub open spec fn spec_components(ev: Seq<Evidence>) -> Seq<ComponentView> {
    seq![
        headers_component(ev),
        build_env_component(ev),
        kernel_config_component(ev),
        modules_component(ev),
        symbols_component(ev),
        rust_component(ev),
        toolchain_component(ev),
        debug_component(ev),
        mounts_component(ev),
    ]
}

fn score_components(evidence: &[Evidence]) -> (r: Vec<ComponentScore>)
    ensures
        component_views(r@) == spec_components(evidence@),
{
    let mut r: Vec<ComponentScore> = Vec::new();
    r.push(score_kernel_headers(evidence));
    r.push(score_build_env(evidence));
    r.push(score_kernel_config(evidence));
    r.push(score_modules(evidence));
    r.push(score_symbols(evidence));
    r.push(score_rust_support(evidence));
    r.push(score_toolchain(evidence));
    r.push(score_debug_capabilities(evidence));
    r.push(score_filesystem_mounts(evidence));
    assert(component_views(r@) =~= spec_components(evidence@));
    r
}

/// Core component weights, in hundredths; they sum to 100. Headers and
/// toolchain dominate because without them nothing works.
fn component_weights() -> (r: Vec<ComponentWeight>)
    ensures
        r@.len() == 9,
        r@[0].name@ == "Kernel Headers"@ && r@[0].weight_percent == 25,
        r@[1].name@ == "Toolchain"@ && r@[1].weight_percent == 20,
        r@[2].name@ == "Kernel Configuration"@ && r@[2].weight_percent == 15,
        r@[3].name@ == "Build Environment"@ && r@[3].weight_percent == 10,
        r@[4].name@ == "Module Environment"@ && r@[4].weight_percent == 10,
        r@[5].name@ == "Symbol Information"@ && r@[5].weight_percent == 8,
        r@[6].name@ == "Rust for Linux"@ && r@[6].weight_percent == 5,
        r@[7].name@ == "Debug Capabilities"@ && r@[7].weight_percent == 4,
        r@[8].name@ == "Filesystem Mounts"@ && r@[8].weight_percent == 3,
{
    let mut r: Vec<ComponentWeight> = Vec::new();
    r.push(ComponentWeight { name: "Kernel Headers", weight_percent: 25 });
    r.push(ComponentWeight { name: "Toolchain", weight_percent: 20 });
    r.push(ComponentWeight { name: "Kernel Configuration", weight_percent: 15 });
    r.push(ComponentWeight { name: "Build Environment", weight_percent: 10 });
    r.push(ComponentWeight { name: "Module Environment", weight_percent: 10 });
    r.push(ComponentWeight { name: "Symbol Information", weight_percent: 8 });
    r.push(ComponentWeight { name: "Rust for Linux", weight_percent: 5 });
    r.push(ComponentWeight { name: "Debug Capabilities", weight_percent: 4 });
    r.push(ComponentWeight { name: "Filesystem Mounts", weight_percent: 3 });
    r
}

/// The weight (in hundredths) of the first weight entry named `name`, or 0.
pub open spec fn weight_of(ws: Seq<ComponentWeight>, name: Seq<char>) -> nat
    decreases ws.len(),
{
    if ws.len() == 0 {
        0
    } else if ws[0].name@ == name {
        ws[0].weight_percent as nat
    } else {
        weight_of(ws.drop_first(), name)
    }
}

/// Sum of score times weight over the components, in hundredths of a point.
pub open spec fn weighted_total(cs: Seq<ComponentView>, ws: Seq<ComponentWeight>) -> nat
    decreases cs.len(),
{
    if cs.len() == 0 {
        0
    } else {
        weighted_total(cs.drop_last(), ws) + (cs.last().score as nat) * weight_of(ws, cs.last().name)
    }
}

/// Overall score: the weighted average rounded half up, kept to eight bits.
pub open spec fn spec_weighted_score(cs: Seq<ComponentView>, ws: Seq<ComponentWeight>) -> u8 {
    let rounded = (weighted_total(cs, ws) + 50) / 100;
    if rounded > 255 {
        255
    } else {
        rounded as u8
    }
}

fn weight_lookup(weights: &Vec<ComponentWeight>, name: &str) -> (r: u8)
    ensures
        r as nat == weight_of(weights@, name@),
{
    let mut i: usize = 0;
    assert(weights@.skip(0) =~= weights@);
    while i < weights.len()
        invariant
            i <= weights@.len(),
            weight_of(weights@, name@) == weight_of(weights@.skip(i as int), name@),
        decreases weights@.len() - i,
    {
        assert(weights@.skip(i as int).drop_first() =~= weights@.skip(i + 1));
        if str_eq(weights[i].name, name) {
            return weights[i].weight_percent;
        }
        i += 1;
    }
    0
}

/// Weighted scoring: core components (headers, toolchain) contribute more.
fn weighted_overall_score(components: &Vec<ComponentScore>, weights: &Vec<ComponentWeight>) -> (r: u8)
    requires
        components@.len() <= 1000,
    ensures
        r == spec_weighted_score(component_views(components@), weights@),
{
    let mut total: u64 = 0;
    let mut i: usize = 0;
    while i < components.len()
        invariant
            i <= components@.len(),
            components@.len() <= 1000,
            total == weighted_total(component_views(components@.take(i as int)), weights@),
            total <= i * 65025,
        decreases components@.len() - i,
    {
        let w = weight_lookup(weights, components[i].name);
        let ghost pre = component_views(components@.take(i as int));
        assert(component_views(components@.take(i + 1)).drop_last() =~= pre);
        assert(components[i as int].score * w <= 65025) by (nonlinear_arith)
            requires
                components[i as int].score <= 255,
                w <= 255,
        ;
        total = total + (components[i].score as u64) * (w as u64);
        i += 1;
    }
    assert(components@.take(components@.len() as int) =~= components@);
    let rounded = (total + 50) / 100;
    if rounded > 255 {
        255
    } else {
        rounded as u8
    }
}

/// Level label of a score.
pub open spec fn spec_score_label(score: u8) -> Seq<char> {
    if 95 <= score <= 100 {
        "Excellent"@
    } else if 80 <= score <= 94 {
        "Good"@
    } else if 60 <= score <= 79 {
        "Adequate"@
    } else if 40 <= score <= 59 {
        "Needs Work"@
    } else if 20 <= score <= 39 {
        "Poor"@
    } else {
        "Critical"@
    }
}

fn score_label(score: u8) -> (r: &'static str)
    ensures
        r@ == spec_score_label(score),
{
    if 95 <= score && score <= 100 {
        "Excellent"
    } else if 80 <= score && score <= 94 {
        "Good"
    } else if 60 <= score && score <= 79 {
        "Adequate"
    } else if 40 <= score && score <= 59 {
        "Needs Work"
    } else if 20 <= score && score <= 39 {
        "Poor"
    } else {
        "Critical"
    }
}

pub open spec fn bv(component: Seq<char>, description: Seq<char>) -> BlockingView {
    BlockingView { component, description, severity: "critical"@ }
}

/// Blocking issues for `ev`, in report order: unreadable config, module
/// support missing (config readable), headers incomplete, no C compiler.
#[verifier::opaque]
pub open spec fn spec_blocking(ev: Seq<Evidence>) -> Seq<BlockingView> {
    cond_seq(
        !config_available(ev),
        bv(
            "Kernel Configuration"@,
            "Cannot read kernel config — install kernel headers or enable CONFIG_IKCONFIG_PROC"@,
        ),
    ) + cond_seq(
        !spec_ev_bool(ev, "config.MODULES"@) && config_available(ev),
        bv("Module Support"@, "CONFIG_MODULES not set — kernel module support missing"@),
    ) + cond_seq(
        !spec_ev_status_is(ev, "build.headers"@, "Complete"@),
        bv(
            "Kernel Headers"@,
            "Kernel headers not installed for "@ + spec_ev_s(ev, "kernel.release"@),
        ),
    ) + cond_seq(
        !spec_ev_bool(ev, "toolchain.gcc"@),
        bv("Toolchain"@, "No C compiler found — install gcc or clang"@),
    )
}

fn detect_blocking(evidence: &[Evidence]) -> (r: Vec<BlockingIssue>)
    ensures
        blocking_views(r@) == spec_blocking(evidence@),
{
    reveal(spec_blocking);
    let mut issues: Vec<BlockingIssue> = Vec::new();
    let no_config = ev_text_value(evidence, "config.source").is_none();
    if no_config {
        issues.push(
            BlockingIssue {
                component: "Kernel Configuration",
                description: owned(
                    "Cannot read kernel config — install kernel headers or enable CONFIG_IKCONFIG_PROC",
                ),
                severity: "critical",
            },
        );
    }
    let ghost s1 = cond_seq(
        no_config,
        bv(
            "Kernel Configuration"@,
            "Cannot read kernel config — install kernel headers or enable CONFIG_IKCONFIG_PROC"@,
        ),
    );
    assert(blocking_views(issues@) =~= s1);
    let no_modules = !ev_bool(evidence, "config.MODULES") && ev_text_value(
        evidence,
        "config.source",
    ).is_some();
    if no_modules {
        issues.push(
            BlockingIssue {
                component: "Module Support",
                description: owned("CONFIG_MODULES not set — kernel module support missing"),
                severity: "critical",
            },
        );
    }
    let ghost s2 = s1 + cond_seq(
        no_modules,
        bv("Module Support"@, "CONFIG_MODULES not set — kernel module support missing"@),
    );
    assert(blocking_views(issues@) =~= s2);
    let no_headers = !ev_status_is(evidence, "build.headers", "Complete");
    let release = ev_s(evidence, "kernel.release");
    if no_headers {
        issues.push(
            BlockingIssue {
                component: "Kernel Headers",
                description: concat2("Kernel headers not installed for ", release.as_str()),
                severity: "critical",
            },
        );
    }
    let ghost s3 = s2 + cond_seq(
        no_headers,
        bv("Kernel Headers"@, "Kernel headers not installed for "@ + release@),
    );
    assert(blocking_views(issues@) =~= s3);
    let no_gcc = !ev_bool(evidence, "toolchain.gcc");
    if no_gcc {
        issues.push(
            BlockingIssue {
                component: "Toolchain",
                description: owned("No C compiler found — install gcc or clang"),
                severity: "critical",
            },
        );
    }
    assert(blocking_views(issues@) =~= s3 + cond_seq(
        no_gcc,
        bv("Toolchain"@, "No C compiler found — install gcc or clang"@),
    ));
    issues
}


pub open spec fn av(priority: u8, action: Seq<char>, estimated_minutes: u32, component: Seq<char>) -> ActionView {
    ActionView { priority, action, estimated_minutes, component }
}

/// The kernel release as written into install commands.
pub open spec fn release_text(ev: Seq<Evidence>) -> Seq<char> {
    let release = spec_ev_s(ev, "kernel.release"@);
    if release != "Unknown"@ {
        release
    } else {
        "$(uname -r)"@
    }
}

/// The fix for one blocking issue; an issue of another component has none.
pub open spec fn blocking_fix(b: BlockingView, release: Seq<char>) -> Seq<ActionView> {
    if b.component == "Kernel Headers"@ {
        seq![
            av(
                1,
                "Install kernel headers: apt install linux-headers-"@ + release
                    + " or pacman -S linux-headers"@,
                3,
                "headers"@,
            ),
        ]
    } else if b.component == "Toolchain"@ {
        seq![
            av(
                1,
                "Install build tools: apt install build-essential or pacman -S base-devel"@,
                5,
                "toolchain"@,
            ),
        ]
    } else if b.component == "Module Support"@ {
        seq![av(1, "Rebuild kernel with CONFIG_MODULES=y"@, 60, "kernel"@)]
    } else if b.component == "Kernel Configuration"@ {
        seq![
            av(
                1,
                "Install kernel config: ensure /boot/config-$(uname -r) exists or enable CONFIG_IKCONFIG_PROC"@,
                2,
                "config"@,
            ),
        ]
    } else {
        seq![]
    }
}

/// The fixes for the blocking issues, in the issues' order.
pub open spec fn blocking_fixes(bs: Seq<BlockingView>, release: Seq<char>) -> Seq<ActionView>
    decreases bs.len(),
{
    if bs.len() == 0 {
        seq![]
    } else {
        blocking_fixes(bs.drop_last(), release) + blocking_fix(bs.last(), release)
    }
}

/// The follow-up action when kallsyms is not readable.
#[verifier::opaque]
pub open spec fn kallsyms_fix(ev: Seq<Evidence>) -> Seq<ActionView> {
    cond_seq(
        !kallsyms_readable(ev),
        av(2, "Enable kallsyms: echo 0 > /proc/sys/kernel/kptr_restrict (as root)"@, 1, "symbols"@),
    )
}

/// The follow-up action when BTF is configured but its data is missing.
#[verifier::opaque]
pub open spec fn btf_fix(ev: Seq<Evidence>) -> Seq<ActionView> {
    cond_seq(
        spec_ev_bool(ev, "config.DEBUG_INFO_BTF"@) && !spec_ev_bool(ev, "debug.btf"@),
        av(2, "BTF configured but data not found — ensure /sys/kernel/btf/vmlinux exists"@, 10, "debug"@),
    )
}

/// The follow-up action when debugfs is not mounted.
#[verifier::opaque]
pub open spec fn debugfs_fix(ev: Seq<Evidence>) -> Seq<ActionView> {
    cond_seq(
        !spec_ev_bool(ev, "fs.debugfs"@),
        av(3, "Mount debugfs: mount -t debugfs none /sys/kernel/debug (as root)"@, 1, "filesystem"@),
    )
}

/// The follow-up action when tracefs is not mounted.
#[verifier::opaque]
pub open spec fn tracefs_fix(ev: Seq<Evidence>) -> Seq<ActionView> {
    cond_seq(
        !spec_ev_bool(ev, "fs.tracefs"@),
        av(3, "Mount tracefs: mount -t tracefs none /sys/kernel/tracing (as root)"@, 1, "filesystem"@),
    )
}

/// The follow-up action when the kernel has Rust enabled and rustc is missing.
#[verifier::opaque]
pub open spec fn rustc_fix(ev: Seq<Evidence>) -> Seq<ActionView> {
    cond_seq(
        spec_ev_bool(ev, "config.RUST"@) && !spec_ev_bool(ev, "toolchain.rustc"@),
        av(2, "Install Rust: curl --proto '=https' --tlsv1.2 -sSf https://sh.rustup.rs | sh"@, 5, "rust"@),
    )
}

/// The follow-up action when Rust and rustc are there and bindgen is missing.
#[verifier::opaque]
pub open spec fn bindgen_fix(ev: Seq<Evidence>) -> Seq<ActionView> {
    cond_seq(
        spec_ev_bool(ev, "config.RUST"@) && spec_ev_bool(ev, "toolchain.rustc"@) && !spec_ev_bool(ev, "toolchain.bindgen"@),
        av(3, "Install bindgen: cargo install bindgen-cli"@, 10, "rust"@),
    )
}

/// The follow-up action when modules are enabled and module signing is not.
#[verifier::opaque]
pub open spec fn signing_fix(ev: Seq<Evidence>) -> Seq<ActionView> {
    cond_seq(
        spec_ev_bool(ev, "config.MODULES"@) && !spec_ev_bool(ev, "config.MODULE_SIG"@),
        av(3, "Set up module signing keys for kernel module development"@, 15, "modules"@),
    )
}

/// The actions that do not come from a blocking issue, in the order they
/// are considered: kallsyms, BTF, debugfs, tracefs, rustc, bindgen,
/// module signing.
pub open spec fn follow_up_actions(ev: Seq<Evidence>) -> Seq<ActionView> {
    kallsyms_fix(ev) + btf_fix(ev) + debugfs_fix(ev) + tracefs_fix(ev) + rustc_fix(ev) + bindgen_fix(
        ev,
    ) + signing_fix(ev)
}

pub open spec fn has_priority(p: u8) -> spec_fn(ActionView) -> bool {
    |a: ActionView| a.priority == p
}

/// Stable ordering by priority: the actions of priority 1, then 2, then 3,
/// each group in its original order.
pub open spec fn by_priority(s: Seq<ActionView>) -> Seq<ActionView> {
    s.filter(has_priority(1)) + s.filter(has_priority(2)) + s.filter(has_priority(3))
}

/// The recommended actions: the fixes for the blocking issues and the
/// follow-up actions, ordered by priority, at most seven.
pub open spec fn spec_recommend(ev: Seq<Evidence>, bs: Seq<BlockingView>) -> Seq<ActionView> {
    first_seven(by_priority(blocking_fixes(bs, release_text(ev)) + follow_up_actions(ev)))
}

/// Every action takes at most an hour.
pub open spec fn bounded_minutes(s: Seq<ActionView>) -> bool {
    forall|i: int| 0 <= i < s.len() ==> #[trigger] s[i].estimated_minutes <= 60
}

/// Actions that come out of `by_priority` are ordered by priority.
pub proof fn lemma_by_priority_ordered(s: Seq<ActionView>)
    ensures
        forall|i: int, j: int|
            0 <= i <= j < by_priority(s).len() ==> by_priority(s)[i].priority
                <= by_priority(s)[j].priority,
{
    let f1 = s.filter(has_priority(1));
    let f2 = s.filter(has_priority(2));
    let f3 = s.filter(has_priority(3));
    let b = by_priority(s);
    assert forall|k: int| 0 <= k < b.len() implies (k < f1.len() ==> b[k].priority == 1) && (
    f1.len() <= k < f1.len() + f2.len() ==> b[k].priority == 2) && (f1.len() + f2.len() <= k
        ==> b[k].priority == 3) by {
        if k < f1.len() {
            s.lemma_filter_pred(has_priority(1), k);
            assert(b[k] == f1[k]);
        } else if k < f1.len() + f2.len() {
            s.lemma_filter_pred(has_priority(2), k - f1.len());
            assert(b[k] == f2[k - f1.len()]);
        } else {
            s.lemma_filter_pred(has_priority(3), k - f1.len() - f2.len());
            assert(b[k] == f3[k - f1.len() - f2.len()]);
        }
    }
}

impl RecommendedAction {
    fn duplicate(&self) -> (r: RecommendedAction)
        ensures
            r@ == self@,
    {
        RecommendedAction {
            priority: self.priority,
            action: self.action.clone(),
            estimated_minutes: self.estimated_minutes,
            component: self.component,
        }
    }
}

fn push_action(
    actions: &mut Vec<RecommendedAction>,
    priority: u8,
    action: String,
    estimated_minutes: u32,
    component: &'static str,
)
    requires
        estimated_minutes <= 60,
        bounded_minutes(action_views(old(actions)@)),
    ensures
        action_views(final(actions)@) == action_views(old(actions)@).push(
            av(priority, action@, estimated_minutes, component@),
        ),
        bounded_minutes(action_views(final(actions)@)),
{
    actions.push(RecommendedAction { priority, action, estimated_minutes, component });
    assert(action_views(final(actions)@) =~= action_views(old(actions)@).push(
        av(priority, action@, estimated_minutes, component@),
    ));
}

fn push_blocking_fix(issue: &BlockingIssue, release: &str, actions: &mut Vec<RecommendedAction>)
    requires
        bounded_minutes(action_views(old(actions)@)),
    ensures
        action_views(final(actions)@) == action_views(old(actions)@) + blocking_fix(
            issue@,
            release@,
        ),
        bounded_minutes(action_views(final(actions)@)),
{
    if str_eq(issue.component, "Kernel Headers") {
        push_action(
            actions,
            1,
            concat3(
                "Install kernel headers: apt install linux-headers-",
                release,
                " or pacman -S linux-headers",
            ),
            3,
            "headers",
        );
    } else if str_eq(issue.component, "Toolchain") {
        push_action(
            actions,
            1,
            owned("Install build tools: apt install build-essential or pacman -S base-devel"),
            5,
            "toolchain",
        );
    } else if str_eq(issue.component, "Module Support") {
        push_action(actions, 1, owned("Rebuild kernel with CONFIG_MODULES=y"), 60, "kernel");
    } else if str_eq(issue.component, "Kernel Configuration") {
        push_action(
            actions,
            1,
            owned(
                "Install kernel config: ensure /boot/config-$(uname -r) exists or enable CONFIG_IKCONFIG_PROC",
            ),
            2,
            "config",
        );
    }
    assert(action_views(final(actions)@) =~= action_views(old(actions)@) + blocking_fix(
        issue@,
        release@,
    ));
}

fn push_action_if(
    actions: &mut Vec<RecommendedAction>,
    cond: bool,
    priority: u8,
    action: &str,
    estimated_minutes: u32,
    component: &'static str,
)
    requires
        estimated_minutes <= 60,
        bounded_minutes(action_views(old(actions)@)),
    ensures
        action_views(final(actions)@) == action_views(old(actions)@) + cond_seq(
            cond,
            av(priority, action@, estimated_minutes, component@),
        ),
        bounded_minutes(action_views(final(actions)@)),
{
    if cond {
        push_action(actions, priority, owned(action), estimated_minutes, component);
    }
    assert(action_views(final(actions)@) =~= action_views(old(actions)@) + cond_seq(
        cond,
        av(priority, action@, estimated_minutes, component@),
    ));
}

fn push_follow_ups(evidence: &[Evidence], actions: &mut Vec<RecommendedAction>)
    requires
        bounded_minutes(action_views(old(actions)@)),
    ensures
        action_views(final(actions)@) == action_views(old(actions)@) + follow_up_actions(
            evidence@,
        ),
        bounded_minutes(action_views(final(actions)@)),
{
    let ghost ev = evidence@;
    let ghost start = action_views(actions@);
    let ks_ok = ev_status_is(evidence, "symbols.kallsyms", "readable") || ev_status_is(
        evidence,
        "symbols.kallsyms",
        "readable (root)",
    );
    push_action_if(
        actions,
        !ks_ok,
        2,
        "Enable kallsyms: echo 0 > /proc/sys/kernel/kptr_restrict (as root)",
        1,
        "symbols",
    );
    let ghost acc = kallsyms_fix(ev);
    assert(action_views(actions@) == start + acc) by {
        reveal(kallsyms_fix);
    }
    let cfg_btf = ev_bool(evidence, "config.DEBUG_INFO_BTF");
    let btf = ev_bool(evidence, "debug.btf");
    push_action_if(
        actions,
        cfg_btf && !btf,
        2,
        "BTF configured but data not found — ensure /sys/kernel/btf/vmlinux exists",
        10,
        "debug",
    );
    proof {
        reveal(btf_fix);
        lemma_concat_associative(start, acc, btf_fix(ev));
        acc = acc + btf_fix(ev);
    }
    let debugfs = ev_bool(evidence, "fs.debugfs");
    push_action_if(
        actions,
        !debugfs,
        3,
        "Mount debugfs: mount -t debugfs none /sys/kernel/debug (as root)",
        1,
        "filesystem",
    );
    proof {
        reveal(debugfs_fix);
        lemma_concat_associative(start, acc, debugfs_fix(ev));
        acc = acc + debugfs_fix(ev);
    }
    let tracefs = ev_bool(evidence, "fs.tracefs");
    push_action_if(
        actions,
        !tracefs,
        3,
        "Mount tracefs: mount -t tracefs none /sys/kernel/tracing (as root)",
        1,
        "filesystem",
    );
    proof {
        reveal(tracefs_fix);
        lemma_concat_associative(start, acc, tracefs_fix(ev));
        acc = acc + tracefs_fix(ev);
    }
    let rust = ev_bool(evidence, "config.RUST");
    let rustc = ev_bool(evidence, "toolchain.rustc");
    push_action_if(
        actions,
        rust && !rustc,
        2,
        "Install Rust: curl --proto '=https' --tlsv1.2 -sSf https://sh.rustup.rs | sh",
        5,
        "rust",
    );
    proof {
        reveal(rustc_fix);
        lemma_concat_associative(start, acc, rustc_fix(ev));
        acc = acc + rustc_fix(ev);
    }
    let bindgen = ev_bool(evidence, "toolchain.bindgen");
    push_action_if(
        actions,
        rust && rustc && !bindgen,
        3,
        "Install bindgen: cargo install bindgen-cli",
        10,
        "rust",
    );
    proof {
        reveal(bindgen_fix);
        lemma_concat_associative(start, acc, bindgen_fix(ev));
        acc = acc + bindgen_fix(ev);
    }
    let modules = ev_bool(evidence, "config.MODULES");
    let mod_sig = ev_bool(evidence, "config.MODULE_SIG");
    push_action_if(
        actions,
        modules && !mod_sig,
        3,
        "Set up module signing keys for kernel module development",
        15,
        "modules",
    );
    proof {
        reveal(signing_fix);
        lemma_concat_associative(start, acc, signing_fix(ev));
        acc = acc + signing_fix(ev);
    }
    assert(acc == follow_up_actions(ev));
}

/// Appends, in order, the actions of `all` that have priority `p`.
fn append_with_priority(all: &Vec<RecommendedAction>, p: u8, out: &mut Vec<RecommendedAction>)
    requires
        bounded_minutes(action_views(all@)),
        bounded_minutes(action_views(old(out)@)),
    ensures
        action_views(final(out)@) == action_views(old(out)@) + action_views(all@).filter(
            has_priority(p),
        ),
        bounded_minutes(action_views(final(out)@)),
{
    let mut i: usize = 0;
    while i < all.len()
        invariant
            i <= all@.len(),
            bounded_minutes(action_views(all@)),
            bounded_minutes(action_views(out@)),
            action_views(out@) == action_views(old(out)@) + action_views(all@.take(i as int)).filter(
                has_priority(p),
            ),
        decreases all@.len() - i,
    {
        let ghost prev = action_views(all@.take(i as int));
        let ghost x = all@[i as int]@;
        assert(action_views(all@.take(i + 1)) =~= prev.push(x));
        proof {
            prev.lemma_filter_push(x, has_priority(p));
        }
        assert(action_views(all@)[i as int] == x);
        if all[i].priority == p {
            let ghost before = action_views(out@);
            out.push(all[i].duplicate());
            assert(action_views(out@) =~= before.push(x));
        }
        i += 1;
    }
    assert(all@.take(all@.len() as int) =~= all@);
}

/// At most the first seven of a list.
pub open spec fn first_seven<A>(s: Seq<A>) -> Seq<A> {
    if s.len() > 7 {
        s.take(7)
    } else {
        s
    }
}

/// Stable sort by priority (1, 2, 3), keeping at most seven actions.
fn order_by_priority(all: &Vec<RecommendedAction>) -> (r: Vec<RecommendedAction>)
    requires
        bounded_minutes(action_views(all@)),
    ensures
        action_views(r@) == first_seven(by_priority(action_views(all@))),
        r@.len() <= 7,
        bounded_minutes(action_views(r@)),
        forall|i: int, j: int| 0 <= i <= j < r@.len() ==> r@[i].priority <= r@[j].priority,
{
    let mut sorted: Vec<RecommendedAction> = Vec::new();
    append_with_priority(all, 1, &mut sorted);
    append_with_priority(all, 2, &mut sorted);
    append_with_priority(all, 3, &mut sorted);
    let ghost views_all = action_views(all@);
    assert(action_views(sorted@) =~= by_priority(views_all));
    proof {
        lemma_by_priority_ordered(views_all);
    }
    let ghost before = sorted@;
    sorted.truncate(7);
    assert(action_views(sorted@) =~= first_seven(by_priority(views_all)));
    assert forall|i: int, j: int| 0 <= i <= j < sorted@.len() implies sorted@[i].priority
        <= sorted@[j].priority by {
        assert(sorted@[i] == before[i]);
        assert(sorted@[j] == before[j]);
        assert(action_views(before)[i].priority == before[i].priority);
        assert(action_views(before)[j].priority == before[j].priority);
    }
    sorted
}

/// The fixes for the blocking issues followed by the follow-up actions.
fn gather_actions(evidence: &[Evidence], blocking: &Vec<BlockingIssue>) -> (r: Vec<RecommendedAction>)
    ensures
        action_views(r@) == blocking_fixes(blocking_views(blocking@), release_text(evidence@))
            + follow_up_actions(evidence@),
        bounded_minutes(action_views(r@)),
{
    let mut actions: Vec<RecommendedAction> = Vec::new();
    let release = ev_s(evidence, "kernel.release");
    let release_str = if !str_eq(release.as_str(), "Unknown") {
        release
    } else {
        owned("$(uname -r)")
    };
    let mut i: usize = 0;
    while i < blocking.len()
        invariant
            i <= blocking@.len(),
            release_str@ == release_text(evidence@),
            action_views(actions@) == blocking_fixes(
                blocking_views(blocking@.take(i as int)),
                release_str@,
            ),
            bounded_minutes(action_views(actions@)),
        decreases blocking@.len() - i,
    {
        let ghost bs = blocking_views(blocking@.take(i + 1));
        assert(bs.drop_last() =~= blocking_views(blocking@.take(i as int)));
        assert(bs.last() == blocking@[i as int]@);
        push_blocking_fix(&blocking[i], release_str.as_str(), &mut actions);
        i += 1;
    }
    assert(blocking@.take(blocking@.len() as int) =~= blocking@);
    push_follow_ups(evidence, &mut actions);
    actions
}

/// The recommended actions: fixes for the blocking issues first, then the
/// follow-ups, stably ordered by priority, at most seven.
fn recommend_actions(evidence: &[Evidence], blocking: &Vec<BlockingIssue>) -> (r: Vec<RecommendedAction>)
    ensures
        action_views(r@) == spec_recommend(evidence@, blocking_views(blocking@)),
        r@.len() <= 7,
        bounded_minutes(action_views(r@)),
        forall|i: int, j: int| 0 <= i <= j < r@.len() ==> r@[i].priority <= r@[j].priority,
{
    let all = gather_actions(evidence, blocking);
    order_by_priority(&all)
}

/// A component needs attention when it is blocking or missing.
pub open spec fn needs_attention(status: ComponentStatus) -> bool {
    status == ComponentStatus::Blocking || status == ComponentStatus::Missing
}

/// Names of the components that need attention, in order.
pub open spec fn spec_affected(cs: Seq<ComponentView>) -> Seq<Seq<char>>
    decreases cs.len(),
{
    if cs.len() == 0 {
        seq![]
    } else {
        spec_affected(cs.drop_last()) + cond_seq(needs_attention(cs.last().status), cs.last().name)
    }
}

fn affected(components: &Vec<ComponentScore>) -> (r: Vec<&'static str>)
    ensures
        views(r@) == spec_affected(component_views(components@)),
{
    let mut r: Vec<&'static str> = Vec::new();
    let mut i: usize = 0;
    while i < components.len()
        invariant
            i <= components@.len(),
            views(r@) == spec_affected(component_views(components@.take(i as int))),
        decreases components@.len() - i,
    {
        let ghost cs = component_views(components@.take(i + 1));
        assert(cs.drop_last() =~= component_views(components@.take(i as int)));
        assert(cs.last() == components@[i as int]@);
        let ghost before = views(r@);
        let status = components[i].status;
        if status == ComponentStatus::Blocking || status == ComponentStatus::Missing {
            r.push(components[i].name);
        }
        assert(views(r@) =~= before + cond_seq(
            needs_attention(components@[i as int].status),
            components@[i as int].name@,
        ));
        i += 1;
    }
    assert(components@.take(components@.len() as int) =~= components@);
    r
}

/// How many of the three signals (config readable, kallsyms readable,
/// headers complete) hold.
pub open spec fn good_signals(ev: Seq<Evidence>) -> nat {
    ind(config_available(ev)) + ind(kallsyms_readable(ev)) + ind(
        spec_ev_status_is(ev, "build.headers"@, "Complete"@),
    )
}

/// Confidence: high with all three signals, medium with at least one.
pub open spec fn spec_confidence(ev: Seq<Evidence>) -> Confidence {
    if good_signals(ev) == 3 {
        Confidence::High
    } else if good_signals(ev) >= 1 {
        Confidence::Medium
    } else {
        Confidence::Low
    }
}

fn assess_confidence(evidence: &[Evidence]) -> (r: Confidence)
    ensures
        r == spec_confidence(evidence@),
{
    let config_available = ev_text_value(evidence, "config.source").is_some();
    let ks_readable = ev_status_is(evidence, "symbols.kallsyms", "readable") || ev_status_is(
        evidence,
        "symbols.kallsyms",
        "readable (root)",
    );
    let headers_ok = ev_status_is(evidence, "build.headers", "Complete");
    let mut good: u8 = 0;
    if config_available {
        good += 1;
    }
    if ks_readable {
        good += 1;
    }
    if headers_ok {
        good += 1;
    }
    if good == 3 {
        Confidence::High
    } else if good >= 1 {
        Confidence::Medium
    } else {
        Confidence::Low
    }
}

/// How many components score below 40.
pub open spec fn low_count(cs: Seq<ComponentView>) -> nat
    decreases cs.len(),
{
    if cs.len() == 0 {
        0
    } else {
        low_count(cs.drop_last()) + ind(cs.last().score < 40)
    }
}

/// Overall risk: three or more blocking issues are critical, any blocking
/// issue is a warning; without any, three or more weak components are a
/// warning and one or two a low risk.
pub open spec fn spec_risk(cs: Seq<ComponentView>, blocking_len: nat) -> RiskLevel {
    if blocking_len >= 3 {
        RiskLevel::Critical
    } else if blocking_len > 0 {
        RiskLevel::Warning
    } else if low_count(cs) >= 3 {
        RiskLevel::Warning
    } else if low_count(cs) >= 1 {
        RiskLevel::Low
    } else {
        RiskLevel::NoRisk
    }
}

fn assess_risk(components: &Vec<ComponentScore>, blocking: &Vec<BlockingIssue>) -> (r: RiskLevel)
    ensures
        r == spec_risk(component_views(components@), blocking@.len()),
{
    if blocking.len() >= 3 {
        return RiskLevel::Critical;
    }
    if blocking.len() > 0 {
        return RiskLevel::Warning;
    }
    let mut low: usize = 0;
    let mut i: usize = 0;
    while i < components.len()
        invariant
            i <= components@.len(),
            low <= i,
            low == low_count(component_views(components@.take(i as int))),
        decreases components@.len() - i,
    {
        let ghost cs = component_views(components@.take(i + 1));
        assert(cs.drop_last() =~= component_views(components@.take(i as int)));
        assert(cs.last() == components@[i as int]@);
        if components[i].score < 40 {
            low += 1;
        }
        i += 1;
    }
    assert(components@.take(components@.len() as int) =~= components@);
    if low >= 3 {
        RiskLevel::Warning
    } else if low >= 1 {
        RiskLevel::Low
    } else {
        RiskLevel::NoRisk
    }
}

/// The single most impactful next action.
pub open spec fn spec_next_best(acts: Seq<ActionView>, bs: Seq<BlockingView>) -> Seq<char> {
    if bs.len() > 0 {
        "→ Resolve: "@ + bs[0].description
    } else if acts.len() > 0 {
        "→ "@ + acts[0].action
    } else {
        "✓ System ready for kernel development"@
    }
}

/// The next best action is to resolve the first blocking issue; with none,
/// it is the first recommended action; the system is reported ready only
/// when there is neither a blocking issue nor a recommended action.
pub proof fn lemma_next_best_action(acts: Seq<ActionView>, bs: Seq<BlockingView>)
    ensures
        bs.len() > 0 ==> spec_next_best(acts, bs) == "→ Resolve: "@ + bs[0].description,
        bs.len() == 0 && acts.len() > 0 ==> spec_next_best(acts, bs) == "→ "@ + acts[0].action,
        spec_next_best(acts, bs) == "✓ System ready for kernel development"@ <==> (bs.len() == 0
            && acts.len() == 0),
{
    reveal_strlit("✓ System ready for kernel development");
    reveal_strlit("→ Resolve: ");
    reveal_strlit("→ ");
    let ready = "✓ System ready for kernel development"@;
    if bs.len() > 0 {
        assert(spec_next_best(acts, bs)[0] != ready[0]);
    } else if acts.len() > 0 {
        assert(spec_next_best(acts, bs)[0] != ready[0]);
    }
}

fn next_best(actions: &Vec<RecommendedAction>, blocking: &Vec<BlockingIssue>) -> (r: String)
    ensures
        r@ == spec_next_best(action_views(actions@), blocking_views(blocking@)),
{
    if blocking.len() > 0 {
        return concat2("→ Resolve: ", blocking[0].description.as_str());
    }
    if actions.len() > 0 {
        return concat2("→ ", actions[0].action.as_str());
    }
    owned("✓ System ready for kernel development")
}

/// Total of the estimated minutes.
pub open spec fn total_minutes(acts: Seq<ActionView>) -> nat
    decreases acts.len(),
{
    if acts.len() == 0 {
        0
    } else {
        total_minutes(acts.drop_last()) + (acts.last().estimated_minutes as nat)
    }
}

fn sum_minutes(actions: &Vec<RecommendedAction>) -> (r: u32)
    requires
        actions@.len() <= 7,
        bounded_minutes(action_views(actions@)),
    ensures
        r == total_minutes(action_views(actions@)),
{
    let mut total: u32 = 0;
    let mut i: usize = 0;
    while i < actions.len()
        invariant
            i <= actions@.len(),
            actions@.len() <= 7,
            bounded_minutes(action_views(actions@)),
            total == total_minutes(action_views(actions@.take(i as int))),
            total <= 60 * i,
        decreases actions@.len() - i,
    {
        let ghost xs = action_views(actions@.take(i + 1));
        assert(xs.drop_last() =~= action_views(actions@.take(i as int)));
        assert(xs.last() == actions@[i as int]@);
        assert(action_views(actions@)[i as int].estimated_minutes <= 60);
        total = total + actions[i].estimated_minutes;
        i += 1;
    }
    assert(actions@.take(actions@.len() as int) =~= actions@);
    total
}

/// The weights table: nine named weights, in hundredths.
pub open spec fn standard_weights(ws: Seq<ComponentWeight>) -> bool {
    &&& ws.len() == 9
    &&& ws[0].name@ == "Kernel Headers"@ && ws[0].weight_percent == 25
    &&& ws[1].name@ == "Toolchain"@ && ws[1].weight_percent == 20
    &&& ws[2].name@ == "Kernel Configuration"@ && ws[2].weight_percent == 15
    &&& ws[3].name@ == "Build Environment"@ && ws[3].weight_percent == 10
    &&& ws[4].name@ == "Module Environment"@ && ws[4].weight_percent == 10
    &&& ws[5].name@ == "Symbol Information"@ && ws[5].weight_percent == 8
    &&& ws[6].name@ == "Rust for Linux"@ && ws[6].weight_percent == 5
    &&& ws[7].name@ == "Debug Capabilities"@ && ws[7].weight_percent == 4
    &&& ws[8].name@ == "Filesystem Mounts"@ && ws[8].weight_percent == 3
}

/// Assesses compatibility from evidence.
pub fn assess(evidence: &[Evidence]) -> (r: Compatibility)
    ensures
        component_views(r.components@) == spec_components(evidence@),
        standard_weights(r.weights@),
        r.score == spec_weighted_score(spec_components(evidence@), r.weights@),
        r.score <= 100,
        r.level@ == spec_score_label(r.score),
        r.confidence == spec_confidence(evidence@),
        r.risk == spec_risk(spec_components(evidence@), spec_blocking(evidence@).len()),
        blocking_views(r.blocking_issues@) == spec_blocking(evidence@),
        action_views(r.recommended_actions@) == spec_recommend(evidence@, spec_blocking(evidence@)),
        forall|i: int, j: int|
            0 <= i <= j < r.recommended_actions@.len() ==> r.recommended_actions@[i].priority
                <= r.recommended_actions@[j].priority,
        r.estimated_fix_minutes == total_minutes(spec_recommend(evidence@, spec_blocking(evidence@))),
        views(r.affected_components@) == spec_affected(spec_components(evidence@)),
        r.next_best_action@ == spec_next_best(
            spec_recommend(evidence@, spec_blocking(evidence@)),
            spec_blocking(evidence@),
        ),
        r.blocking_issues@.len() > 0 ==> r.next_best_action@ == "→ Resolve: "@
            + r.blocking_issues@[0].description@,
        r.blocking_issues@.len() == 0 && r.recommended_actions@.len() > 0 ==> r.next_best_action@
            == "→ "@ + r.recommended_actions@[0].action@,
        r.next_best_action@ == "✓ System ready for kernel development"@ <==> (
        r.blocking_issues@.len() == 0 && r.recommended_actions@.len() == 0),
{
    let components = score_components(evidence);
    let weights = component_weights();
    let score = weighted_overall_score(&components, &weights);
    let blocking_issues = detect_blocking(evidence);
    let recommended_actions = recommend_actions(evidence, &blocking_issues);
    let affected_components = affected(&components);
    let confidence = assess_confidence(evidence);
    let risk = assess_risk(&components, &blocking_issues);
    let estimated_fix_minutes = sum_minutes(&recommended_actions);
    let next_best_action = next_best(&recommended_actions, &blocking_issues);
    let level = score_label(score);
    proof {
        assert(blocking_views(blocking_issues@).len() == blocking_issues@.len());
        lemma_score_at_most_100(evidence@, weights@);
        lemma_next_best_action(action_views(recommended_actions@), blocking_views(blocking_issues@));
        if blocking_issues@.len() > 0 {
            assert(blocking_views(blocking_issues@)[0] == blocking_issues@[0]@);
        }
        if recommended_actions@.len() > 0 {
            assert(action_views(recommended_actions@)[0] == recommended_actions@[0]@);
        }
    }
    Compatibility {
        score,
        level,
        confidence,
        risk,
        components,
        weights,
        blocking_issues,
        recommended_actions,
        estimated_fix_minutes,
        affected_components,
        next_best_action,
    }
}


// ---------------------------------------------------------------------------
//  Laws of the assessment
// ---------------------------------------------------------------------------

/// Sum of the weights, in hundredths.
pub open spec fn weights_total(ws: Seq<ComponentWeight>) -> nat
    decreases ws.len(),
{
    if ws.len() == 0 {
        0
    } else {
        weights_total(ws.drop_last()) + ws.last().weight_percent as nat
    }
}

/// The standard component weights add up to one whole (100 hundredths).
pub proof fn lemma_standard_weights_sum_to_100(ws: Seq<ComponentWeight>)
    requires
        standard_weights(ws),
    ensures
        weights_total(ws) == 100,
{
    reveal_with_fuel(weights_total, 10);
    let w1 = ws.drop_last();
    let w2 = w1.drop_last();
    let w3 = w2.drop_last();
    let w4 = w3.drop_last();
    let w5 = w4.drop_last();
    let w6 = w5.drop_last();
    let w7 = w6.drop_last();
    let w8 = w7.drop_last();
    assert(w8.len() == 1 && w8.last() == ws[0]);
    assert(w8.drop_last().len() == 0);
}

/// Every component of an assessment scores between 0 and 100.
pub proof fn lemma_component_scores_at_most_100(ev: Seq<Evidence>)
    ensures
        forall|i: int| 0 <= i < spec_components(ev).len() ==> #[trigger] spec_components(ev)[i].score <= 100,
{
    reveal(headers_component);
    reveal(build_env_component);
    reveal(kernel_config_component);
    reveal(modules_component);
    reveal(symbols_component);
    reveal(rust_component);
    reveal(toolchain_component);
    reveal(debug_component);
    reveal(mounts_component);
}

/// The components' names, in report order.
pub proof fn lemma_component_names(ev: Seq<Evidence>)
    ensures
        spec_components(ev).len() == 9,
        spec_components(ev)[0].name == "Kernel Headers"@,
        spec_components(ev)[1].name == "Build Environment"@,
        spec_components(ev)[2].name == "Kernel Configuration"@,
        spec_components(ev)[3].name == "Module Environment"@,
        spec_components(ev)[4].name == "Symbol Information"@,
        spec_components(ev)[5].name == "Rust for Linux"@,
        spec_components(ev)[6].name == "Toolchain"@,
        spec_components(ev)[7].name == "Debug Capabilities"@,
        spec_components(ev)[8].name == "Filesystem Mounts"@,
{
    reveal(headers_component);
    reveal(build_env_component);
    reveal(kernel_config_component);
    reveal(modules_component);
    reveal(symbols_component);
    reveal(rust_component);
    reveal(toolchain_component);
    reveal(debug_component);
    reveal(mounts_component);
}

/// Sum of the weights that the components find by name.
pub open spec fn matched_weight(cs: Seq<ComponentView>, ws: Seq<ComponentWeight>) -> nat
    decreases cs.len(),
{
    if cs.len() == 0 {
        0
    } else {
        matched_weight(cs.drop_last(), ws) + weight_of(ws, cs.last().name)
    }
}

proof fn lemma_weighted_total_bound(cs: Seq<ComponentView>, ws: Seq<ComponentWeight>)
    requires
        forall|i: int| 0 <= i < cs.len() ==> #[trigger] cs[i].score <= 100,
    ensures
        weighted_total(cs, ws) <= 100 * matched_weight(cs, ws),
    decreases cs.len(),
{
    if cs.len() > 0 {
        let init = cs.drop_last();
        assert forall|i: int| 0 <= i < init.len() implies #[trigger] init[i].score <= 100 by {
            assert(init[i] == cs[i]);
        }
        lemma_weighted_total_bound(init, ws);
        let s = cs.last().score as nat;
        let w = weight_of(ws, cs.last().name);
        assert(cs[cs.len() - 1].score <= 100);
        assert(s * w <= 100 * w) by (nonlinear_arith)
            requires
                s <= 100,
        ;
    }
}

/// Under the standard weights, every component of the assessment finds its
/// own weight by name, so the weights found add up to 100.
proof fn lemma_standard_matched_weight(ev: Seq<Evidence>, ws: Seq<ComponentWeight>)
    requires
        standard_weights(ws),
    ensures
        matched_weight(spec_components(ev), ws) == 100,
{
    let cs = spec_components(ev);
    lemma_component_names(ev);
    reveal_strlit("Kernel Headers");
    reveal_strlit("Toolchain");
    reveal_strlit("Kernel Configuration");
    reveal_strlit("Build Environment");
    reveal_strlit("Module Environment");
    reveal_strlit("Symbol Information");
    reveal_strlit("Rust for Linux");
    reveal_strlit("Debug Capabilities");
    reveal_strlit("Filesystem Mounts");
    assert("Kernel Headers"@.len() == 14 && "Kernel Headers"@[0] == 'K');
    assert("Toolchain"@.len() == 9);
    assert("Kernel Configuration"@.len() == 20);
    assert("Build Environment"@.len() == 17 && "Build Environment"@[0] == 'B');
    assert("Module Environment"@.len() == 18 && "Module Environment"@[0] == 'M');
    assert("Symbol Information"@.len() == 18 && "Symbol Information"@[0] == 'S');
    assert("Rust for Linux"@.len() == 14 && "Rust for Linux"@[0] == 'R');
    assert("Debug Capabilities"@.len() == 18 && "Debug Capabilities"@[0] == 'D');
    assert("Filesystem Mounts"@.len() == 17 && "Filesystem Mounts"@[0] == 'F');
    let d1 = ws.drop_first();
    let d2 = d1.drop_first();
    let d3 = d2.drop_first();
    let d4 = d3.drop_first();
    let d5 = d4.drop_first();
    let d6 = d5.drop_first();
    let d7 = d6.drop_first();
    let d8 = d7.drop_first();
    assert(d1[0] == ws[1] && d2[0] == ws[2] && d3[0] == ws[3] && d4[0] == ws[4]);
    assert(d5[0] == ws[5] && d6[0] == ws[6] && d7[0] == ws[7] && d8[0] == ws[8]);
    assert(d8.len() == 1 && d8.drop_first().len() == 0);
    reveal_with_fuel(weight_of, 10);
    assert(weight_of(ws, cs[0].name) == 25);
    assert(weight_of(ws, cs[1].name) == 10);
    assert(weight_of(ws, cs[2].name) == 15);
    assert(weight_of(ws, cs[3].name) == 10);
    assert(weight_of(ws, cs[4].name) == 8);
    assert(weight_of(ws, cs[5].name) == 5);
    assert(weight_of(ws, cs[6].name) == 20);
    assert(weight_of(ws, cs[7].name) == 4);
    assert(weight_of(ws, cs[8].name) == 3);
    reveal_with_fuel(matched_weight, 10);
    let c1 = cs.drop_last();
    let c2 = c1.drop_last();
    let c3 = c2.drop_last();
    let c4 = c3.drop_last();
    let c5 = c4.drop_last();
    let c6 = c5.drop_last();
    let c7 = c6.drop_last();
    let c8 = c7.drop_last();
    assert(c1.last() == cs[7] && c2.last() == cs[6] && c3.last() == cs[5] && c4.last() == cs[4]);
    assert(c5.last() == cs[3] && c6.last() == cs[2] && c7.last() == cs[1] && c8.last() == cs[0]);
    assert(c8.len() == 1 && c8.drop_last().len() == 0);
}

/// The overall compatibility score lies between 0 and 100.
pub proof fn lemma_score_at_most_100(ev: Seq<Evidence>, ws: Seq<ComponentWeight>)
    requires
        standard_weights(ws),
    ensures
        spec_weighted_score(spec_components(ev), ws) <= 100,
{
    lemma_component_scores_at_most_100(ev);
    lemma_weighted_total_bound(spec_components(ev), ws);
    lemma_standard_matched_weight(ev, ws);
}

proof fn lemma_weighted_total_full(cs: Seq<ComponentView>, ws: Seq<ComponentWeight>)
    requires
        forall|i: int| 0 <= i < cs.len() ==> #[trigger] cs[i].score == 100,
    ensures
        weighted_total(cs, ws) == 100 * matched_weight(cs, ws),
    decreases cs.len(),
{
    if cs.len() > 0 {
        let init = cs.drop_last();
        assert forall|i: int| 0 <= i < init.len() implies #[trigger] init[i].score == 100 by {
            assert(init[i] == cs[i]);
        }
        lemma_weighted_total_full(init, ws);
        assert(cs[cs.len() - 1].score == 100);
        let sc = cs.last().score as nat;
        let w = weight_of(ws, cs.last().name);
        assert(sc * w == 100 * w) by (nonlinear_arith)
            requires
                sc == 100,
        ;
    }
}

/// Since the weights add up to one whole, an assessment whose components
/// all score 100 scores 100.
pub proof fn lemma_full_marks_score_100(ev: Seq<Evidence>, ws: Seq<ComponentWeight>)
    requires
        standard_weights(ws),
        forall|i: int| 0 <= i < spec_components(ev).len() ==> #[trigger] spec_components(ev)[i].score == 100,
    ensures
        spec_weighted_score(spec_components(ev), ws) == 100,
{
    lemma_weighted_total_full(spec_components(ev), ws);
    lemma_standard_matched_weight(ev, ws);
}

} // verus!
