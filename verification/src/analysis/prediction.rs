//! Prediction engine: simulates the consequences of each ranked action.
//!
//! It answers "if you choose this action, what will most likely happen?".
//! Deterministic: derived only from the evidence, the compatibility
//! assessment and the decision plan. It never prints, probes or renders.
use crate::analysis::compatibility::{config_available, Compatibility, RiskLevel};
use crate::analysis::decision::{decision_views, DecisionAction, DecisionActionView, DecisionPlan, Difficulty};
use crate::evidence::Evidence;
use crate::evidence_helpers::{ev_bool, ev_s, ev_status_is, ev_text_value, spec_ev_bool, spec_ev_s, spec_ev_status_is};
use crate::ranking::{lemma_insert_at, lemma_stable_sorted, ordered_by, stable_sorted, strict_weak_order};
use crate::seqs::{cond_seq, ind};
use crate::text::{
    concat2, concat3, decimal, owned, push_str_if, push_string_if, seq_contains_sub, str_contains,
    str_eq, string_views, u64_to_string,
};
use vstd::prelude::*;

verus! {

// ============================================================================
//  Domain model
// ============================================================================

/// Current state and the simulated future scenarios.
#[derive(Clone, Debug)]
pub struct PredictionResult {
    /// Current overall compatibility score (0 to 100).
    pub current_score: u8,
    /// The scenarios, best expected score first.
    pub scenarios: Vec<Scenario>,
}

/// The simulated state after taking one action.
#[derive(Clone, Debug)]
pub struct Scenario {
    /// Human-readable scenario title.
    pub title: String,
    /// The action that leads to this scenario.
    pub action: String,
    /// Expected compatibility score after the action.
    pub expected_score: u8,
    /// Score change (positive is an improvement).
    pub score_delta: i8,
    /// Expected risk level after the action.
    pub expected_risk: PredictedRisk,
    /// Confidence in this prediction.
    pub confidence: PredictionConfidence,
    /// Expected build success probability (0 to 100).
    pub expected_build_success: u8,
    /// Estimated time to complete, in minutes.
    pub estimated_minutes: u32,
    /// Whether the action requires a reboot.
    pub requires_reboot: bool,
    /// Capabilities unlocked by the action.
    pub unlocked_capabilities: Vec<String>,
    /// What might break or change as a side effect.
    pub breaking_changes: Vec<String>,
    /// Warnings the user should be aware of.
    pub warnings: Vec<String>,
    /// Assumptions underlying the prediction.
    pub assumptions: Vec<String>,
}

/// Mathematical model of a [`Scenario`].
pub struct ScenarioView {
    pub title: Seq<char>,
    pub action: Seq<char>,
    pub expected_score: u8,
    pub score_delta: i8,
    pub expected_risk: PredictedRisk,
    pub confidence: PredictionConfidence,
    pub expected_build_success: u8,
    pub estimated_minutes: u32,
    pub requires_reboot: bool,
    pub unlocked_capabilities: Seq<Seq<char>>,
    pub breaking_changes: Seq<Seq<char>>,
    pub warnings: Seq<Seq<char>>,
    pub assumptions: Seq<Seq<char>>,
}

impl View for Scenario {
    type V = ScenarioView;

    open spec fn view(&self) -> ScenarioView {
        ScenarioView {
            title: self.title@,
            action: self.action@,
            expected_score: self.expected_score,
            score_delta: self.score_delta,
            expected_risk: self.expected_risk,
            confidence: self.confidence,
            expected_build_success: self.expected_build_success,
            estimated_minutes: self.estimated_minutes,
            requires_reboot: self.requires_reboot,
            unlocked_capabilities: string_views(self.unlocked_capabilities@),
            breaking_changes: string_views(self.breaking_changes@),
            warnings: string_views(self.warnings@),
            assumptions: string_views(self.assumptions@),
        }
    }
}

pub open spec fn scenario_views(s: Seq<Scenario>) -> Seq<ScenarioView> {
    s.map_values(|x: Scenario| x@)
}

/// Predicted risk after an action.
#[derive(Clone, Copy, Debug, PartialEq, Eq, Structural)]
pub enum PredictedRisk {
    NoRisk,
    Low,
    Medium,
    High,
    Critical,
}

impl PredictedRisk {
    pub open spec fn spec_label(self) -> Seq<char> {
        match self {
            PredictedRisk::NoRisk => "None"@,
            PredictedRisk::Low => "Low"@,
            PredictedRisk::Medium => "Medium"@,
            PredictedRisk::High => "High"@,
            PredictedRisk::Critical => "Critical"@,
        }
    }

    pub fn label(self) -> (r: &'static str)
        ensures
            r@ == self.spec_label(),
    {
        match self {
            PredictedRisk::NoRisk => "None",
            PredictedRisk::Low => "Low",
            PredictedRisk::Medium => "Medium",
            PredictedRisk::High => "High",
            PredictedRisk::Critical => "Critical",
        }
    }
}

/// Certainty of a prediction.
#[derive(Clone, Copy, Debug, PartialEq, Eq, Structural)]
pub enum PredictionConfidence {
    /// Over 85% certainty.
    High,
    /// 60% to 85%.
    Medium,
    /// Under 60%.
    Low,
}

impl PredictionConfidence {
    pub open spec fn spec_label(self) -> Seq<char> {
        match self {
            PredictionConfidence::High => "High"@,
            PredictionConfidence::Medium => "Medium"@,
            PredictionConfidence::Low => "Low"@,
        }
    }

    pub fn label(self) -> (r: &'static str)
        ensures
            r@ == self.spec_label(),
    {
        match self {
            PredictionConfidence::High => "High",
            PredictionConfidence::Medium => "Medium",
            PredictionConfidence::Low => "Low",
        }
    }

    pub open spec fn spec_percentage(self) -> u8 {
        match self {
            PredictionConfidence::High => 92,
            PredictionConfidence::Medium => 72,
            PredictionConfidence::Low => 45,
        }
    }

    pub fn percentage(self) -> (r: u8)
        ensures
            r == self.spec_percentage(),
    {
        match self {
            PredictionConfidence::High => 92,
            PredictionConfidence::Medium => 72,
            PredictionConfidence::Low => 45,
        }
    }
}

// ============================================================================
//  Specification of one scenario
// ============================================================================

/// The title mentions `word`.
pub open spec fn mentions(title: Seq<char>, word: Seq<char>) -> bool {
    seq_contains_sub(title, word)
}

/// Trivial and easy actions.
pub open spec fn is_light(d: Difficulty) -> bool {
    d == Difficulty::Trivial || d == Difficulty::Easy
}

/// The score after the action: the gain added without overflow, capped at 100.
pub open spec fn spec_expected_after(score: u8, gain: u8) -> u8 {
    if score + gain > 100 {
        100
    } else {
        (score + gain) as u8
    }
}

/// A byte read as a signed byte (two's complement).
pub open spec fn as_signed(b: u8) -> int {
    if b < 128 {
        b as int
    } else {
        b - 256
    }
}

/// The scores whose difference fits a signed byte: both read as signed
/// bytes, the new one at most 100.
pub open spec fn delta_fits(score: u8) -> bool {
    score <= 127 || score >= 229
}

pub open spec fn spec_risk_after(blocking_len: nat, risk: RiskLevel, a: DecisionActionView) -> PredictedRisk {
    if a.fixes_blocking {
        if mentions(a.title, "headers"@) {
            if blocking_len <= 2 {
                PredictedRisk::Low
            } else {
                PredictedRisk::Medium
            }
        } else if blocking_len <= 1 {
            PredictedRisk::Low
        } else {
            PredictedRisk::Medium
        }
    } else if mentions(a.title, "Rebuild kernel"@) || mentions(a.title, "CONFIG_MODULES"@) {
        PredictedRisk::Medium
    } else if mentions(a.title, "kptr_restrict"@) || mentions(a.title, "Mount"@) {
        PredictedRisk::Low
    } else if mentions(a.title, "Install"@) && is_light(a.difficulty) {
        PredictedRisk::NoRisk
    } else {
        match risk {
            RiskLevel::Critical => PredictedRisk::Medium,
            RiskLevel::Warning => PredictedRisk::Low,
            RiskLevel::Low => PredictedRisk::Low,
            RiskLevel::NoRisk => PredictedRisk::NoRisk,
        }
    }
}

/// How many of the five confidence signals hold: config readable, release
/// known, a light action, a high expected score, a blocking fix.
pub open spec fn confidence_signals(ev: Seq<Evidence>, a: DecisionActionView, expected: u8) -> nat {
    ind(config_available(ev)) + ind(spec_ev_s(ev, "kernel.release"@) != "Unknown"@) + ind(
        is_light(a.difficulty),
    ) + ind(expected >= 80) + ind(a.fixes_blocking)
}

/// High with at least four of the five signals (a ratio of 0.8), medium
/// with at least three (a ratio of 0.5 or more), low otherwise.
pub open spec fn spec_prediction_confidence(ev: Seq<Evidence>, a: DecisionActionView, expected: u8) -> PredictionConfidence {
    if confidence_signals(ev, a, expected) >= 4 {
        PredictionConfidence::High
    } else if confidence_signals(ev, a, expected) >= 3 {
        PredictionConfidence::Medium
    } else {
        PredictionConfidence::Low
    }
}

pub open spec fn spec_build_success(ev: Seq<Evidence>, a: DecisionActionView) -> u8 {
    let gcc = spec_ev_bool(ev, "toolchain.gcc"@);
    let headers = spec_ev_status_is(ev, "build.headers"@, "Complete"@);
    if mentions(a.title, "headers"@) {
        if gcc {
            95
        } else {
            70
        }
    } else if mentions(a.title, "gcc"@) || mentions(a.title, "build toolchain"@) {
        90
    } else if mentions(a.title, "Rebuild kernel"@) {
        65
    } else if mentions(a.title, "signing"@) {
        85
    } else if mentions(a.title, "config"@) {
        if gcc && spec_ev_bool(ev, "config.MODULES"@) {
            88
        } else {
            60
        }
    } else if gcc && headers {
        80
    } else if gcc || headers {
        50
    } else {
        25
    }
}

/// Only kernel rebuilds and config changes need a reboot.
pub open spec fn spec_reboot(a: DecisionActionView) -> bool {
    mentions(a.title, "Rebuild kernel"@) || mentions(a.title, "CONFIG_"@)
}

#[verifier::opaque]
pub open spec fn spec_unlocked(a: DecisionActionView) -> Seq<Seq<char>> {
    let t = a.title;
    let headers = mentions(t, "headers"@);
    let gcc = mentions(t, "gcc"@) || mentions(t, "build toolchain"@);
    let kallsyms = mentions(t, "kptr_restrict"@) || mentions(t, "kallsyms"@);
    let rust = mentions(t, "Rust"@) || mentions(t, "rustc"@);
    let tracefs = mentions(t, "tracefs"@);
    let modules = mentions(t, "CONFIG_MODULES"@);
    let livepatch = mentions(t, "livepatch"@) || mentions(t, "LIVEPATCH"@);
    cond_seq(headers, "External kernel module compilation"@) + cond_seq(
        headers,
        "Kernel source inspection"@,
    ) + cond_seq(gcc, "C kernel module compilation"@) + cond_seq(
        kallsyms,
        "Kernel symbol resolution"@,
    ) + cond_seq(kallsyms, "Function hooking capability"@) + cond_seq(
        rust,
        "Rust kernel module development"@,
    ) + cond_seq(mentions(t, "bindgen"@), "Rust FFI kernel bindings generation"@) + cond_seq(
        mentions(t, "BTF"@),
        "Type-aware kernel introspection"@,
    ) + cond_seq(mentions(t, "debugfs"@), "Kernel debugging interfaces"@) + cond_seq(
        tracefs,
        "Kernel function tracing (ftrace)"@,
    ) + cond_seq(tracefs, "Performance analysis"@) + cond_seq(modules, "Kernel module loading"@)
        + cond_seq(modules, "External module development"@) + cond_seq(
        modules,
        "Runtime kernel extension"@,
    ) + cond_seq(livepatch, "Runtime kernel patching (livepatch)"@) + cond_seq(
        livepatch,
        "Zero-downtime kernel fixes"@,
    )
}

#[verifier::opaque]
pub open spec fn spec_breaking(a: DecisionActionView) -> Seq<Seq<char>> {
    let t = a.title;
    let rebuild = mentions(t, "Rebuild kernel"@);
    let config = mentions(t, "CONFIG_"@);
    let keys = mentions(t, "signing"@) && mentions(t, "key"@);
    cond_seq(rebuild, "Custom kernel may differ from distro kernel"@) + cond_seq(
        rebuild,
        "Existing modules may need recompilation"@,
    ) + cond_seq(rebuild, "ABI compatibility not guaranteed across versions"@) + cond_seq(
        config,
        "Kernel configuration change requires rebuild"@,
    ) + cond_seq(config, "May affect system boot behavior"@) + cond_seq(
        keys,
        "Module signing keys must be managed securely"@,
    ) + cond_seq(keys, "Secure boot configuration may need update"@)
}

#[verifier::opaque]
pub open spec fn spec_warnings(ev: Seq<Evidence>, a: DecisionActionView) -> Seq<Seq<char>> {
    let t = a.title;
    let rebuild = mentions(t, "Rebuild kernel"@);
    cond_seq(spec_reboot(a), "This action requires a system reboot to take effect"@) + cond_seq(
        a.estimated_minutes > 30,
        "This is a significant time investment (~"@ + decimal(a.estimated_minutes as nat)
            + " min)"@,
    ) + cond_seq(
        mentions(t, "headers"@) && spec_ev_s(ev, "kernel.release"@) == "Unknown"@,
        "Cannot verify kernel version — headers may not match running kernel"@,
    ) + cond_seq(rebuild, "Kernel compilation may fail on first attempt"@) + cond_seq(
        rebuild,
        "Backup current kernel before proceeding"@,
    ) + cond_seq(
        a.expected_score_gain < 3,
        "This action provides minimal score improvement"@,
    )
}

#[verifier::opaque]
pub open spec fn spec_assumptions(ev: Seq<Evidence>, a: DecisionActionView) -> Seq<Seq<char>> {
    let t = a.title;
    let release = spec_ev_s(ev, "kernel.release"@);
    let headers = mentions(t, "headers"@);
    let gcc = mentions(t, "gcc"@) || mentions(t, "build toolchain"@);
    let rebuild = mentions(t, "Rebuild kernel"@);
    cond_seq(headers, "Package manager has linux-headers for "@ + release) + cond_seq(
        headers,
        "Headers will match running kernel version"@,
    ) + cond_seq(gcc, "System has internet access for package installation"@) + cond_seq(
        gcc,
        "User has sudo/root access"@,
    ) + cond_seq(
        mentions(t, "rustc"@),
        "Rustup installation succeeds without network issues"@,
    ) + cond_seq(rebuild, "User has sufficient disk space (~20GB)"@) + cond_seq(
        rebuild,
        "Build environment meets kernel compilation requirements"@,
    ) + cond_seq(rebuild, "Kernel source for "@ + release + " is available"@) + cond_seq(
        mentions(t, "kptr_restrict"@) || mentions(t, "Mount"@),
        "User has root access"@,
    ) + cond_seq(
        a.estimated_minutes > 5,
        "System remains stable and connected during the operation"@,
    )
}

/// The scenario of taking action `a` from a state with the given score,
/// number of blocking issues and risk.
pub open spec fn spec_scenario(
    ev: Seq<Evidence>,
    score: u8,
    blocking_len: nat,
    risk: RiskLevel,
    a: DecisionActionView,
) -> ScenarioView {
    let expected = spec_expected_after(score, a.expected_score_gain);
    ScenarioView {
        title: "Apply: "@ + a.title,
        action: a.title,
        expected_score: expected,
        score_delta: (expected - as_signed(score)) as i8,
        expected_risk: spec_risk_after(blocking_len, risk, a),
        confidence: spec_prediction_confidence(ev, a, expected),
        expected_build_success: spec_build_success(ev, a),
        estimated_minutes: a.estimated_minutes,
        requires_reboot: spec_reboot(a),
        unlocked_capabilities: spec_unlocked(a),
        breaking_changes: spec_breaking(a),
        warnings: spec_warnings(ev, a),
        assumptions: spec_assumptions(ev, a),
    }
}

// ============================================================================
//  Simulation of one scenario
// ============================================================================

fn mentions_exec(title: &String, word: &str) -> (r: bool)
    ensures
        r == mentions(title@, word@),
{
    str_contains(title.as_str(), word)
}

fn is_light_exec(d: Difficulty) -> (r: bool)
    ensures
        r == is_light(d),
{
    match d {
        Difficulty::Trivial | Difficulty::Easy => true,
        _ => false,
    }
}

fn predict_risk_after(compatibility: &Compatibility, action: &DecisionAction) -> (r: PredictedRisk)
    ensures
        r == spec_risk_after(compatibility.blocking_issues@.len(), compatibility.risk, action@),
{
    let t = &action.title;
    let blocking = compatibility.blocking_issues.len();
    if action.fixes_blocking {
        if mentions_exec(t, "headers") {
            return if blocking <= 2 {
                PredictedRisk::Low
            } else {
                PredictedRisk::Medium
            };
        }
        return if blocking <= 1 {
            PredictedRisk::Low
        } else {
            PredictedRisk::Medium
        };
    }
    if mentions_exec(t, "Rebuild kernel") || mentions_exec(t, "CONFIG_MODULES") {
        return PredictedRisk::Medium;
    }
    if mentions_exec(t, "kptr_restrict") || mentions_exec(t, "Mount") {
        return PredictedRisk::Low;
    }
    if mentions_exec(t, "Install") && is_light_exec(action.difficulty) {
        return PredictedRisk::NoRisk;
    }
    match compatibility.risk {
        RiskLevel::Critical => PredictedRisk::Medium,
        RiskLevel::Warning => PredictedRisk::Low,
        RiskLevel::Low => PredictedRisk::Low,
        RiskLevel::NoRisk => PredictedRisk::NoRisk,
    }
}

fn predict_confidence(evidence: &[Evidence], action: &DecisionAction, expected_score: u8) -> (r:
    PredictionConfidence)
    ensures
        r == spec_prediction_confidence(evidence@, action@, expected_score),
{
    let mut signals: u8 = 0;
    if ev_text_value(evidence, "config.source").is_some() {
        signals += 1;
    }
    let release = ev_s(evidence, "kernel.release");
    if !str_eq(release.as_str(), "Unknown") {
        signals += 1;
    }
    if is_light_exec(action.difficulty) {
        signals += 1;
    }
    if expected_score >= 80 {
        signals += 1;
    }
    if action.fixes_blocking {
        signals += 1;
    }
    if signals >= 4 {
        PredictionConfidence::High
    } else if signals >= 3 {
        PredictionConfidence::Medium
    } else {
        PredictionConfidence::Low
    }
}

fn predict_build_success(evidence: &[Evidence], action: &DecisionAction) -> (r: u8)
    ensures
        r == spec_build_success(evidence@, action@),
{
    let t = &action.title;
    let gcc = ev_bool(evidence, "toolchain.gcc");
    if mentions_exec(t, "headers") {
        return if gcc {
            95
        } else {
            70
        };
    }
    if mentions_exec(t, "gcc") || mentions_exec(t, "build toolchain") {
        return 90;
    }
    if mentions_exec(t, "Rebuild kernel") {
        return 65;
    }
    if mentions_exec(t, "signing") {
        return 85;
    }
    if mentions_exec(t, "config") {
        return if gcc && ev_bool(evidence, "config.MODULES") {
            88
        } else {
            60
        };
    }
    let has_headers = ev_status_is(evidence, "build.headers", "Complete");
    if gcc && has_headers {
        80
    } else if gcc || has_headers {
        50
    } else {
        25
    }
}

fn predict_reboot(action: &DecisionAction) -> (r: bool)
    ensures
        r == spec_reboot(action@),
{
    mentions_exec(&action.title, "Rebuild kernel") || mentions_exec(&action.title, "CONFIG_")
}

fn predict_unlocked(_evidence: &[Evidence], action: &DecisionAction) -> (r: Vec<String>)
    ensures
        string_views(r@) == spec_unlocked(action@),
{
    let t = &action.title;
    let headers = mentions_exec(t, "headers");
    let gcc = mentions_exec(t, "gcc") || mentions_exec(t, "build toolchain");
    let kallsyms = mentions_exec(t, "kptr_restrict") || mentions_exec(t, "kallsyms");
    let rust = mentions_exec(t, "Rust") || mentions_exec(t, "rustc");
    let bindgen = mentions_exec(t, "bindgen");
    let btf = mentions_exec(t, "BTF");
    let debugfs = mentions_exec(t, "debugfs");
    let tracefs = mentions_exec(t, "tracefs");
    let modules = mentions_exec(t, "CONFIG_MODULES");
    let livepatch = mentions_exec(t, "livepatch") || mentions_exec(t, "LIVEPATCH");
    let mut unlocked: Vec<String> = Vec::new();
    push_str_if(&mut unlocked, headers, "External kernel module compilation");
    assert(string_views(unlocked@) =~= cond_seq(headers, "External kernel module compilation"@));
    push_str_if(&mut unlocked, headers, "Kernel source inspection");
    push_str_if(&mut unlocked, gcc, "C kernel module compilation");
    push_str_if(&mut unlocked, kallsyms, "Kernel symbol resolution");
    push_str_if(&mut unlocked, kallsyms, "Function hooking capability");
    push_str_if(&mut unlocked, rust, "Rust kernel module development");
    push_str_if(&mut unlocked, bindgen, "Rust FFI kernel bindings generation");
    push_str_if(&mut unlocked, btf, "Type-aware kernel introspection");
    push_str_if(&mut unlocked, debugfs, "Kernel debugging interfaces");
    push_str_if(&mut unlocked, tracefs, "Kernel function tracing (ftrace)");
    push_str_if(&mut unlocked, tracefs, "Performance analysis");
    push_str_if(&mut unlocked, modules, "Kernel module loading");
    push_str_if(&mut unlocked, modules, "External module development");
    push_str_if(&mut unlocked, modules, "Runtime kernel extension");
    push_str_if(&mut unlocked, livepatch, "Runtime kernel patching (livepatch)");
    push_str_if(&mut unlocked, livepatch, "Zero-downtime kernel fixes");
    assert(string_views(unlocked@) == spec_unlocked(action@)) by {
        reveal(spec_unlocked);
    }
    unlocked
}

fn predict_breaking_changes(action: &DecisionAction) -> (r: Vec<String>)
    ensures
        string_views(r@) == spec_breaking(action@),
{
    let t = &action.title;
    let rebuild = mentions_exec(t, "Rebuild kernel");
    let config = mentions_exec(t, "CONFIG_");
    let keys = mentions_exec(t, "signing") && mentions_exec(t, "key");
    let mut changes: Vec<String> = Vec::new();
    push_str_if(&mut changes, rebuild, "Custom kernel may differ from distro kernel");
    assert(string_views(changes@) =~= cond_seq(rebuild, "Custom kernel may differ from distro kernel"@));
    push_str_if(&mut changes, rebuild, "Existing modules may need recompilation");
    push_str_if(&mut changes, rebuild, "ABI compatibility not guaranteed across versions");
    push_str_if(&mut changes, config, "Kernel configuration change requires rebuild");
    push_str_if(&mut changes, config, "May affect system boot behavior");
    push_str_if(&mut changes, keys, "Module signing keys must be managed securely");
    push_str_if(&mut changes, keys, "Secure boot configuration may need update");
    assert(string_views(changes@) == spec_breaking(action@)) by {
        reveal(spec_breaking);
    }
    changes
}

fn predict_warnings(evidence: &[Evidence], action: &DecisionAction) -> (r: Vec<String>)
    ensures
        string_views(r@) == spec_warnings(evidence@, action@),
{
    let t = &action.title;
    let reboot = predict_reboot(action);
    let long = action.estimated_minutes > 30;
    let release = ev_s(evidence, "kernel.release");
    let unknown_headers = mentions_exec(t, "headers") && str_eq(release.as_str(), "Unknown");
    let rebuild = mentions_exec(t, "Rebuild kernel");
    let minimal = action.expected_score_gain < 3;
    let minutes = u64_to_string(action.estimated_minutes as u64);
    let mut warnings: Vec<String> = Vec::new();
    push_str_if(&mut warnings, reboot, "This action requires a system reboot to take effect");
    assert(string_views(warnings@) =~= cond_seq(
        reboot,
        "This action requires a system reboot to take effect"@,
    ));
    push_string_if(
        &mut warnings,
        long,
        concat3("This is a significant time investment (~", minutes.as_str(), " min)"),
    );
    push_str_if(
        &mut warnings,
        unknown_headers,
        "Cannot verify kernel version — headers may not match running kernel",
    );
    push_str_if(&mut warnings, rebuild, "Kernel compilation may fail on first attempt");
    push_str_if(&mut warnings, rebuild, "Backup current kernel before proceeding");
    push_str_if(&mut warnings, minimal, "This action provides minimal score improvement");
    assert(string_views(warnings@) == spec_warnings(evidence@, action@)) by {
        reveal(spec_warnings);
    }
    warnings
}

fn build_assumptions(evidence: &[Evidence], action: &DecisionAction) -> (r: Vec<String>)
    ensures
        string_views(r@) == spec_assumptions(evidence@, action@),
{
    let t = &action.title;
    let release = ev_s(evidence, "kernel.release");
    let headers = mentions_exec(t, "headers");
    let gcc = mentions_exec(t, "gcc") || mentions_exec(t, "build toolchain");
    let rustc = mentions_exec(t, "rustc");
    let rebuild = mentions_exec(t, "Rebuild kernel");
    let root = mentions_exec(t, "kptr_restrict") || mentions_exec(t, "Mount");
    let long = action.estimated_minutes > 5;
    let mut assumptions: Vec<String> = Vec::new();
    push_string_if(
        &mut assumptions,
        headers,
        concat2("Package manager has linux-headers for ", release.as_str()),
    );
    assert(string_views(assumptions@) =~= cond_seq(
        headers,
        "Package manager has linux-headers for "@ + release@,
    ));
    push_str_if(&mut assumptions, headers, "Headers will match running kernel version");
    push_str_if(&mut assumptions, gcc, "System has internet access for package installation");
    push_str_if(&mut assumptions, gcc, "User has sudo/root access");
    push_str_if(&mut assumptions, rustc, "Rustup installation succeeds without network issues");
    push_str_if(&mut assumptions, rebuild, "User has sufficient disk space (~20GB)");
    push_str_if(
        &mut assumptions,
        rebuild,
        "Build environment meets kernel compilation requirements",
    );
    push_string_if(
        &mut assumptions,
        rebuild,
        concat3("Kernel source for ", release.as_str(), " is available"),
    );
    push_str_if(&mut assumptions, root, "User has root access");
    push_str_if(
        &mut assumptions,
        long,
        "System remains stable and connected during the operation",
    );
    assert(string_views(assumptions@) == spec_assumptions(evidence@, action@)) by {
        reveal(spec_assumptions);
    }
    assumptions
}

fn simulate_one(evidence: &[Evidence], compatibility: &Compatibility, action: &DecisionAction) -> (r:
    Scenario)
    requires
        delta_fits(compatibility.score),
    ensures
        r@ == spec_scenario(
            evidence@,
            compatibility.score,
            compatibility.blocking_issues@.len(),
            compatibility.risk,
            action@,
        ),
{
    let score = compatibility.score;
    let raised = score as u16 + action.expected_score_gain as u16;
    let expected_score: u8 = if raised > 100 {
        100
    } else {
        raised as u8
    };
    let signed_score: i16 = if score < 128 {
        score as i16
    } else {
        score as i16 - 256
    };
    let delta: i16 = expected_score as i16 - signed_score;
    let score_delta = delta as i8;
    let expected_risk = predict_risk_after(compatibility, action);
    let confidence = predict_confidence(evidence, action, expected_score);
    let build_success = predict_build_success(evidence, action);
    let requires_reboot = predict_reboot(action);
    let unlocked = predict_unlocked(evidence, action);
    let breaking = predict_breaking_changes(action);
    let warnings = predict_warnings(evidence, action);
    let assumptions = build_assumptions(evidence, action);
    Scenario {
        title: concat2("Apply: ", action.title.as_str()),
        action: action.title.clone(),
        expected_score,
        score_delta,
        expected_risk,
        confidence,
        expected_build_success: build_success,
        estimated_minutes: action.estimated_minutes,
        requires_reboot,
        unlocked_capabilities: unlocked,
        breaking_changes: breaking,
        warnings,
        assumptions,
    }
}

// ============================================================================
//  Entry point
// ============================================================================

/// `a` has a strictly higher expected score than `b`.
pub open spec fn scores_higher(a: ScenarioView, b: ScenarioView) -> bool {
    a.expected_score > b.expected_score
}

pub open spec fn best_first() -> spec_fn(ScenarioView, ScenarioView) -> bool {
    |a: ScenarioView, b: ScenarioView| scores_higher(a, b)
}

pub proof fn lemma_best_first()
    ensures
        strict_weak_order(best_first()),
{
}

/// Stable sort of the scenarios, highest expected score first.
fn sort_scenarios(items: Vec<Scenario>) -> (r: Vec<Scenario>)
    ensures
        scenario_views(r@) == stable_sorted(scenario_views(items@), best_first()),
{
    let ghost orig = scenario_views(items@);
    let mut rest = items;
    let mut out: Vec<Scenario> = Vec::new();
    while rest.len() > 0
        invariant
            rest@.len() <= orig.len(),
            scenario_views(rest@) == orig.skip(orig.len() - rest@.len()),
            scenario_views(out@) == stable_sorted(orig.take(orig.len() - rest@.len()), best_first()),
        decreases rest@.len(),
    {
        let ghost k = orig.len() - rest@.len();
        let ghost sorted = scenario_views(out@);
        let ghost before_rest = rest@;
        assert(scenario_views(before_rest)[0] == orig[k]);
        let x = rest.remove(0);
        assert forall|i: int| 0 <= i < rest@.len() implies scenario_views(rest@)[i] == orig[k + 1
            + i] by {
            assert(rest@[i] == before_rest[i + 1]);
            assert(scenario_views(before_rest)[i + 1] == orig.skip(k)[i + 1]);
        }
        assert(scenario_views(rest@) =~= orig.skip(k + 1));
        let mut pos = out.len();
        while pos > 0 && x.expected_score > out[pos - 1].expected_score
            invariant
                pos <= out@.len(),
                scenario_views(out@) == sorted,
                forall|m: int| pos <= m < sorted.len() ==> scores_higher(x@, #[trigger] sorted[m]),
            decreases pos,
        {
            assert(sorted[pos - 1] == out@[pos - 1]@);
            pos -= 1;
        }
        proof {
            if pos > 0 {
                assert(sorted[pos - 1] == out@[pos - 1]@);
            }
            lemma_insert_at(sorted, x@, pos as int, best_first());
            assert(orig.take(k + 1).drop_last() =~= orig.take(k));
        }
        out.insert(pos, x);
        assert(scenario_views(out@) =~= sorted.insert(pos as int, x@));
    }
    assert(orig.take(orig.len() as int) =~= orig);
    out
}

/// The scenario of each ranked action, in ranking order.
pub open spec fn spec_scenarios(
    ev: Seq<Evidence>,
    score: u8,
    blocking_len: nat,
    risk: RiskLevel,
    actions: Seq<DecisionActionView>,
) -> Seq<ScenarioView> {
    actions.map_values(|a: DecisionActionView| spec_scenario(ev, score, blocking_len, risk, a))
}

/// A scenario asks for a reboot exactly when its action's title mentions a
/// kernel rebuild or a `CONFIG_` option, and then warns of it first.
pub open spec fn reboot_flagged(s: ScenarioView) -> bool {
    &&& s.requires_reboot == (seq_contains_sub(s.action, "Rebuild kernel"@) || seq_contains_sub(
        s.action,
        "CONFIG_"@,
    ))
    &&& s.requires_reboot ==> s.warnings.len() > 0 && s.warnings[0]
        == "This action requires a system reboot to take effect"@
}

/// Every kernel rebuild and every configuration change needs a reboot, and
/// nothing else does; a scenario that needs one warns of it first.
pub proof fn lemma_scenario_reboot(
    ev: Seq<Evidence>,
    score: u8,
    blocking_len: nat,
    risk: RiskLevel,
    a: DecisionActionView,
)
    ensures
        spec_scenario(ev, score, blocking_len, risk, a).action == a.title,
        spec_scenario(ev, score, blocking_len, risk, a).requires_reboot == (seq_contains_sub(
            a.title,
            "Rebuild kernel"@,
        ) || seq_contains_sub(a.title, "CONFIG_"@)),
        spec_scenario(ev, score, blocking_len, risk, a).requires_reboot ==> spec_scenario(
            ev,
            score,
            blocking_len,
            risk,
            a,
        ).warnings.len() > 0 && spec_scenario(ev, score, blocking_len, risk, a).warnings[0]
            == "This action requires a system reboot to take effect"@,
        reboot_flagged(spec_scenario(ev, score, blocking_len, risk, a)),
{
    reveal(spec_warnings);
}

/// Simulates a scenario for every ranked action of the plan, best expected
/// score first (ties keep the ranking order).
pub fn simulate(evidence: &[Evidence], compatibility: &Compatibility, decision_plan: &DecisionPlan) -> (r:
    PredictionResult)
    requires
        delta_fits(compatibility.score),
    ensures
        r.current_score == compatibility.score,
        scenario_views(r.scenarios@) == stable_sorted(
            spec_scenarios(
                evidence@,
                compatibility.score,
                compatibility.blocking_issues@.len(),
                compatibility.risk,
                decision_views(decision_plan.ranked_actions@),
            ),
            best_first(),
        ),
        ordered_by(scenario_views(r.scenarios@), best_first()),
        forall|i: int|
            0 <= i < r.scenarios@.len() ==> (#[trigger] r.scenarios@[i]).requires_reboot == (
            seq_contains_sub(r.scenarios@[i].action@, "Rebuild kernel"@) || seq_contains_sub(
                r.scenarios@[i].action@,
                "CONFIG_"@,
            )),
        forall|i: int|
            0 <= i < r.scenarios@.len() && (#[trigger] r.scenarios@[i]).requires_reboot ==> r.scenarios@[i].warnings@.len()
                > 0 && r.scenarios@[i].warnings@[0]@ == "This action requires a system reboot to take effect"@,
{
    let actions = &decision_plan.ranked_actions;
    let ghost spec_all = spec_scenarios(
        evidence@,
        compatibility.score,
        compatibility.blocking_issues@.len(),
        compatibility.risk,
        decision_views(actions@),
    );
    let mut scenarios: Vec<Scenario> = Vec::new();
    let mut i: usize = 0;
    while i < actions.len()
        invariant
            i <= actions@.len(),
            delta_fits(compatibility.score),
            spec_all == spec_scenarios(
                evidence@,
                compatibility.score,
                compatibility.blocking_issues@.len(),
                compatibility.risk,
                decision_views(actions@),
            ),
            scenario_views(scenarios@) == spec_all.take(i as int),
        decreases actions@.len() - i,
    {
        let ghost before = scenario_views(scenarios@);
        let s = simulate_one(evidence, compatibility, &actions[i]);
        assert(decision_views(actions@)[i as int] == actions@[i as int]@);
        assert(s@ == spec_all[i as int]);
        scenarios.push(s);
        assert(scenario_views(scenarios@) =~= before.push(s@));
        assert(spec_all.take(i + 1) =~= spec_all.take(i as int).push(spec_all[i as int]));
        assert(scenario_views(scenarios@) =~= spec_all.take(i + 1));
        i += 1;
    }
    assert(spec_all.take(actions@.len() as int) =~= spec_all);
    let sorted = sort_scenarios(scenarios);
    proof {
        lemma_best_first();
        lemma_stable_sorted(spec_all, best_first());
        broadcast use vstd::seq_lib::group_to_multiset_ensures;
        let srt = stable_sorted(spec_all, best_first());
        assert forall|k: int| 0 <= k < spec_all.len() implies reboot_flagged(#[trigger] spec_all[k]) by {
            lemma_scenario_reboot(
                evidence@,
                compatibility.score,
                compatibility.blocking_issues@.len(),
                compatibility.risk,
                decision_views(actions@)[k],
            );
        }
        assert forall|i: int| 0 <= i < srt.len() implies reboot_flagged(#[trigger] srt[i]) by {
            assert(srt.to_multiset().count(srt[i]) > 0);
            assert(spec_all.contains(srt[i]));
            let k = choose|k: int| 0 <= k < spec_all.len() && spec_all[k] == srt[i];
            assert(reboot_flagged(spec_all[k]));
        }
        assert forall|i: int| 0 <= i < sorted@.len() implies (#[trigger] sorted@[i]).requires_reboot == (
        seq_contains_sub(sorted@[i].action@, "Rebuild kernel"@) || seq_contains_sub(
            sorted@[i].action@,
            "CONFIG_"@,
        )) && (sorted@[i].requires_reboot ==> sorted@[i].warnings@.len() > 0
            && sorted@[i].warnings@[0]@ == "This action requires a system reboot to take effect"@) by {
            assert(scenario_views(sorted@)[i] == sorted@[i]@);
            assert(reboot_flagged(srt[i]));
            if sorted@[i].requires_reboot {
                assert(string_views(sorted@[i].warnings@)[0] == sorted@[i].warnings@[0]@);
            }
        }
    }
    PredictionResult { current_score: compatibility.score, scenarios: sorted }
}

/// Each confidence level reports a percentage inside its band: over 85
/// for high, 60 to 85 for medium, under 60 for low.
pub proof fn lemma_percentage_in_band(c: PredictionConfidence)
    ensures
        c == PredictionConfidence::High ==> c.spec_percentage() > 85,
        c == PredictionConfidence::Medium ==> 60 <= c.spec_percentage() <= 85,
        c == PredictionConfidence::Low ==> c.spec_percentage() < 60,
{
}

/// A scenario never projects a score or a build success above 100; from a
/// score of at most 100 it never projects a lower score, and its delta is
/// the projected score minus the current one, at most the action's gain.
pub proof fn lemma_scenario_bounds(
    ev: Seq<Evidence>,
    score: u8,
    blocking_len: nat,
    risk: RiskLevel,
    a: DecisionActionView,
)
    ensures
        spec_scenario(ev, score, blocking_len, risk, a).expected_score <= 100,
        spec_scenario(ev, score, blocking_len, risk, a).expected_build_success <= 100,
        score <= 100 ==> score <= spec_scenario(ev, score, blocking_len, risk, a).expected_score,
        score <= 100 ==> spec_scenario(ev, score, blocking_len, risk, a).score_delta
            == spec_scenario(ev, score, blocking_len, risk, a).expected_score - score,
        score <= 100 ==> 0 <= spec_scenario(ev, score, blocking_len, risk, a).score_delta
            <= a.expected_score_gain,
{
}

} // verus!
