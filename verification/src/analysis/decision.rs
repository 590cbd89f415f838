//! Decision engine: turns a compatibility assessment into an action plan.
//!
//! It answers what to do next, why, how much it improves the score, how
//! long it takes, and which action pays off best. It is a pure domain model
//! with no rendering.
use crate::analysis::compatibility::{
    blocking_views, component_views, config_available, kallsyms_readable, release_text,
    BlockingView, Compatibility, ComponentView,
};
use crate::analysis::compatibility::Confidence as CompatConfidence;
use crate::evidence::Evidence;
use crate::evidence_helpers::{
    ev_bool, ev_s, ev_status_is, ev_text_value, spec_ev_bool, spec_ev_status_is,
};
use crate::ranking::{lemma_insert_at, lemma_stable_sorted, ordered_by, stable_sorted, strict_weak_order};
use crate::seqs::{cond_seq, lemma_cond4_contains};
use vstd::seq_lib::lemma_concat_associative;
use crate::text::{concat2, concat3, copy_strings, owned, push_str_if, str_eq, strings2, strings3, string_views, views};
use vstd::prelude::*;

verus! {

// ============================================================================
//  Domain model
// ============================================================================

/// A full decision plan derived from a compatibility assessment.
#[derive(Clone, Debug)]
pub struct DecisionPlan {
    /// Current overall compatibility score (0 to 100).
    pub current_score: u8,
    /// Expected score after all recommended actions.
    pub expected_score: u8,
    /// Confidence in the expected score.
    pub confidence: Confidence,
    /// The single highest-return action: the ranked action with the largest
    /// return on time, the first of them on a tie.
    pub highest_roi_action: Option<DecisionAction>,
    /// All actions, best first.
    pub ranked_actions: Vec<DecisionAction>,
    /// Issues that block kernel development, as "component: description".
    pub blocking_issues: Vec<String>,
    /// Things that would help but are not required.
    pub opportunities: Vec<String>,
    /// Total estimated time to fix all issues, in minutes.
    pub estimated_total_fix_minutes: u32,
}

/// A single recommended action with its decision metadata.
#[derive(Clone, Debug)]
pub struct DecisionAction {
    /// Rank position (1 is the highest priority).
    pub rank: u8,
    /// Human-readable action title.
    pub title: String,
    /// Why this action matters.
    pub why: String,
    /// Estimated time to complete, in minutes.
    pub estimated_minutes: u32,
    /// Expected score improvement from this action alone.
    pub expected_score_gain: u8,
    /// Return on investment (score gained per minute), in three-hundredths,
    /// which makes every value the engine produces exact.
    pub roi: u32,
    /// Effort level.
    pub difficulty: Difficulty,
    /// Priority category.
    pub priority: ActionPriority,
    /// Whether this fixes a blocking issue.
    pub fixes_blocking: bool,
    /// Alternative approaches.
    pub alternatives: Vec<String>,
}

/// Mathematical model of a [`DecisionAction`].
pub struct DecisionActionView {
    pub rank: u8,
    pub title: Seq<char>,
    pub why: Seq<char>,
    pub estimated_minutes: u32,
    pub expected_score_gain: u8,
    pub roi: u32,
    pub difficulty: Difficulty,
    pub priority: ActionPriority,
    pub fixes_blocking: bool,
    pub alternatives: Seq<Seq<char>>,
}

impl View for DecisionAction {
    type V = DecisionActionView;

    open spec fn view(&self) -> DecisionActionView {
        DecisionActionView {
            rank: self.rank,
            title: self.title@,
            why: self.why@,
            estimated_minutes: self.estimated_minutes,
            expected_score_gain: self.expected_score_gain,
            roi: self.roi,
            difficulty: self.difficulty,
            priority: self.priority,
            fixes_blocking: self.fixes_blocking,
            alternatives: string_views(self.alternatives@),
        }
    }
}

pub open spec fn decision_views(s: Seq<DecisionAction>) -> Seq<DecisionActionView> {
    s.map_values(|a: DecisionAction| a@)
}

#[derive(Clone, Copy, Debug, PartialEq, Eq, Structural)]
pub enum Difficulty {
    /// Under two minutes.
    Trivial,
    /// Two to ten minutes.
    Easy,
    /// Ten to thirty minutes.
    Medium,
    /// Thirty to sixty minutes.
    Hard,
    /// Over an hour.
    Complex,
}

impl Difficulty {
    pub open spec fn spec_label(self) -> Seq<char> {
        match self {
            Difficulty::Trivial => "trivial"@,
            Difficulty::Easy => "easy"@,
            Difficulty::Medium => "medium"@,
            Difficulty::Hard => "hard"@,
            Difficulty::Complex => "complex"@,
        }
    }

    pub fn label(self) -> (r: &'static str)
        ensures
            r@ == self.spec_label(),
    {
        match self {
            Difficulty::Trivial => "trivial",
            Difficulty::Easy => "easy",
            Difficulty::Medium => "medium",
            Difficulty::Hard => "hard",
            Difficulty::Complex => "complex",
        }
    }
}

/// Priority category of an action; `Critical` ranks first.
#[derive(Clone, Copy, Debug, PartialEq, Eq, Structural)]
pub enum ActionPriority {
    /// Fixes a blocking issue.
    Critical,
    /// High return and high gain.
    High,
    /// Decent gain.
    Medium,
    /// Nice to have.
    Low,
}

impl ActionPriority {
    pub open spec fn spec_label(self) -> Seq<char> {
        match self {
            ActionPriority::Critical => "critical"@,
            ActionPriority::High => "high"@,
            ActionPriority::Medium => "medium"@,
            ActionPriority::Low => "low"@,
        }
    }

    pub fn label(self) -> (r: &'static str)
        ensures
            r@ == self.spec_label(),
    {
        match self {
            ActionPriority::Critical => "critical",
            ActionPriority::High => "high",
            ActionPriority::Medium => "medium",
            ActionPriority::Low => "low",
        }
    }

    /// Position in the priority order: 0 for critical up to 3 for low.
    pub open spec fn spec_order(self) -> u8 {
        match self {
            ActionPriority::Critical => 0,
            ActionPriority::High => 1,
            ActionPriority::Medium => 2,
            ActionPriority::Low => 3,
        }
    }

    pub fn order(self) -> (r: u8)
        ensures
            r == self.spec_order(),
    {
        match self {
            ActionPriority::Critical => 0,
            ActionPriority::High => 1,
            ActionPriority::Medium => 2,
            ActionPriority::Low => 3,
        }
    }
}

#[derive(Clone, Copy, Debug, PartialEq, Eq, Structural)]
pub enum Confidence {
    High,
    Medium,
    Low,
}

impl Confidence {
    pub open spec fn spec_label(self) -> Seq<char> {
        match self {
            Confidence::High => "High"@,
            Confidence::Medium => "Medium"@,
            Confidence::Low => "Low"@,
        }
    }

    pub fn label(self) -> (r: &'static str)
        ensures
            r@ == self.spec_label(),
    {
        match self {
            Confidence::High => "High",
            Confidence::Medium => "Medium",
            Confidence::Low => "Low",
        }
    }
}

impl DecisionAction {
    fn duplicate(&self) -> (r: DecisionAction)
        ensures
            r@ == self@,
    {
        DecisionAction {
            rank: self.rank,
            title: self.title.clone(),
            why: self.why.clone(),
            estimated_minutes: self.estimated_minutes,
            expected_score_gain: self.expected_score_gain,
            roi: self.roi,
            difficulty: self.difficulty,
            priority: self.priority,
            fixes_blocking: self.fixes_blocking,
            alternatives: copy_strings(&self.alternatives),
        }
    }
}

// ============================================================================
//  Ranking
// ============================================================================

/// `a` ranks before `b`: higher priority first, then higher return, then
/// higher gain.
pub open spec fn ranks_before(a: DecisionActionView, b: DecisionActionView) -> bool {
    a.priority.spec_order() < b.priority.spec_order() || (a.priority.spec_order()
        == b.priority.spec_order() && (a.roi > b.roi || (a.roi == b.roi && a.expected_score_gain
        > b.expected_score_gain)))
}

pub open spec fn rank_order() -> spec_fn(DecisionActionView, DecisionActionView) -> bool {
    |a: DecisionActionView, b: DecisionActionView| ranks_before(a, b)
}

pub proof fn lemma_rank_order()
    ensures
        strict_weak_order(rank_order()),
{
}

fn ranks_before_exec(a: &DecisionAction, b: &DecisionAction) -> (r: bool)
    ensures
        r == ranks_before(a@, b@),
{
    let pa = a.priority.order();
    let pb = b.priority.order();
    if pa != pb {
        pa < pb
    } else if a.roi != b.roi {
        a.roi > b.roi
    } else {
        a.expected_score_gain > b.expected_score_gain
    }
}

/// Stable sort of the actions by [`ranks_before`].
fn sort_actions(items: Vec<DecisionAction>) -> (r: Vec<DecisionAction>)
    ensures
        decision_views(r@) == stable_sorted(decision_views(items@), rank_order()),
{
    let ghost orig = decision_views(items@);
    let mut rest = items;
    let mut out: Vec<DecisionAction> = Vec::new();
    while rest.len() > 0
        invariant
            rest@.len() <= orig.len(),
            decision_views(rest@) == orig.skip(orig.len() - rest@.len()),
            decision_views(out@) == stable_sorted(orig.take(orig.len() - rest@.len()), rank_order()),
        decreases rest@.len(),
    {
        let ghost k = orig.len() - rest@.len();
        let ghost sorted = decision_views(out@);
        let ghost before_rest = rest@;
        assert(decision_views(before_rest)[0] == orig[k]);
        let x = rest.remove(0);
        assert forall|i: int| 0 <= i < rest@.len() implies decision_views(rest@)[i] == orig[k + 1
            + i] by {
            assert(rest@[i] == before_rest[i + 1]);
            assert(decision_views(before_rest)[i + 1] == orig.skip(k)[i + 1]);
        }
        assert(decision_views(rest@) =~= orig.skip(k + 1));
        let mut pos = out.len();
        while pos > 0 && ranks_before_exec(&x, &out[pos - 1])
            invariant
                pos <= out@.len(),
                decision_views(out@) == sorted,
                forall|m: int| pos <= m < sorted.len() ==> ranks_before(x@, #[trigger] sorted[m]),
            decreases pos,
        {
            pos -= 1;
        }
        proof {
            lemma_insert_at(sorted, x@, pos as int, rank_order());
            assert(orig.take(k + 1).drop_last() =~= orig.take(k));
        }
        out.insert(pos, x);
        assert(decision_views(out@) =~= sorted.insert(pos as int, x@));
    }
    assert(orig.take(orig.len() as int) =~= orig);
    out
}

/// `s` with rank numbers 1, 2, 3, ... in order.
pub open spec fn with_ranks(s: Seq<DecisionActionView>) -> Seq<DecisionActionView> {
    Seq::new(
        s.len(),
        |i: int|
            DecisionActionView {
                rank: (i + 1) as u8,
                title: s[i].title,
                why: s[i].why,
                estimated_minutes: s[i].estimated_minutes,
                expected_score_gain: s[i].expected_score_gain,
                roi: s[i].roi,
                difficulty: s[i].difficulty,
                priority: s[i].priority,
                fixes_blocking: s[i].fixes_blocking,
                alternatives: s[i].alternatives,
            },
    )
}

fn assign_ranks(items: Vec<DecisionAction>) -> (r: Vec<DecisionAction>)
    requires
        items@.len() < 255,
    ensures
        decision_views(r@) == with_ranks(decision_views(items@)),
{
    let ghost orig = decision_views(items@);
    let mut rest = items;
    let mut out: Vec<DecisionAction> = Vec::new();
    let mut n: u8 = 0;
    while rest.len() > 0
        invariant
            n as int + rest@.len() == orig.len(),
            orig.len() < 255,
            decision_views(rest@) == orig.skip(n as int),
            decision_views(out@) == with_ranks(orig).take(n as int),
        decreases rest@.len(),
    {
        let ghost before_rest = rest@;
        assert(decision_views(before_rest)[0] == orig[n as int]);
        let mut x = rest.remove(0);
        assert forall|i: int| 0 <= i < rest@.len() implies decision_views(rest@)[i] == orig[n + 1
            + i] by {
            assert(rest@[i] == before_rest[i + 1]);
            assert(decision_views(before_rest)[i + 1] == orig.skip(n as int)[i + 1]);
        }
        assert(decision_views(rest@) =~= orig.skip(n + 1));
        let ghost x0 = x@;
        x.rank = n + 1;
        let ghost before = decision_views(out@);
        out.push(x);
        assert(x@ == with_ranks(orig)[n as int]);
        assert(decision_views(out@) =~= before.push(x@));
        assert(decision_views(out@) =~= with_ranks(orig).take(n + 1));
        n = n + 1;
    }
    assert(with_ranks(orig).take(orig.len() as int) =~= with_ranks(orig));
    out
}

/// Orders the actions (critical first, then by return on time, then by
/// gain, ties kept in order) and numbers them from 1.
fn rank_actions(actions: Vec<DecisionAction>) -> (r: Vec<DecisionAction>)
    requires
        actions@.len() < 255,
    ensures
        decision_views(r@) == with_ranks(stable_sorted(decision_views(actions@), rank_order())),
{
    broadcast use vstd::seq_lib::group_to_multiset_ensures;

    let ghost built = decision_views(actions@);
    let sorted = sort_actions(actions);
    proof {
        lemma_rank_order();
        lemma_stable_sorted(built, rank_order());
        let ss = stable_sorted(built, rank_order());
        assert(ss.to_multiset().len() == built.to_multiset().len());
        assert(decision_views(sorted@).len() == built.len());
    }
    assign_ranks(sorted)
}


// ============================================================================
//  Action construction
// ============================================================================

pub open spec fn dv(
    title: Seq<char>,
    why: Seq<char>,
    estimated_minutes: u32,
    expected_score_gain: u8,
    roi: u32,
    difficulty: Difficulty,
    priority: ActionPriority,
    fixes_blocking: bool,
    alternatives: Seq<Seq<char>>,
) -> DecisionActionView {
    DecisionActionView {
        rank: 0,
        title,
        why,
        estimated_minutes,
        expected_score_gain,
        roi,
        difficulty,
        priority,
        fixes_blocking,
        alternatives,
    }
}

/// Gain of installing a C toolchain: large when the score is very low.
pub open spec fn gcc_gain(score: u8) -> u8 {
    if score < 30 {
        25
    } else {
        10
    }
}

/// The action when the kernel headers are incomplete.
#[verifier::opaque]
pub open spec fn headers_decision(ev: Seq<Evidence>, gain: u8) -> Seq<DecisionActionView> {
    cond_seq(
        !spec_ev_status_is(ev, "build.headers"@, "Complete"@),
        dv(
            "Install matching kernel headers for "@ + release_text(ev),
            "Missing headers prevent ALL external kernel module builds. This is the single most impactful fix."@,
            3,
            gain,
            (gain * 100) as u32,
            Difficulty::Easy,
            ActionPriority::Critical,
            true,
            seq![
                "Install via package manager: apt install linux-headers-"@ + release_text(ev) + " or pacman -S linux-headers"@,
                "Compile custom kernel with headers"@,
                "Use distro-provided kernel package (if available)"@,
            ],
        ),
    )
}

/// The action when no C compiler was found.
#[verifier::opaque]
pub open spec fn gcc_decision(ev: Seq<Evidence>, score: u8) -> Seq<DecisionActionView> {
    cond_seq(
        !spec_ev_bool(ev, "toolchain.gcc"@),
        dv(
            "Install C build toolchain (gcc + make)"@,
            "No C compiler found — kernel modules require a C toolchain for compilation."@,
            5,
            gcc_gain(score),
            (gcc_gain(score) * 60) as u32,
            Difficulty::Easy,
            ActionPriority::Critical,
            true,
            seq![
                "apt install build-essential"@,
                "pacman -S base-devel"@,
                "dnf groupinstall 'Development Tools'"@,
            ],
        ),
    )
}

/// The action when the kernel config cannot be read.
#[verifier::opaque]
pub open spec fn config_decision(ev: Seq<Evidence>) -> Seq<DecisionActionView> {
    cond_seq(
        !config_available(ev),
        dv(
            "Make kernel config accessible"@,
            "Cannot read kernel config — compatibility assessment is incomplete without it."@,
            2,
            15,
            2250,
            Difficulty::Easy,
            ActionPriority::Critical,
            true,
            seq![
                "Copy /boot/config-$(uname -r) if it exists"@,
                "Enable CONFIG_IKCONFIG_PROC and rebuild kernel"@,
                "Use zcat /proc/config.gz if available"@,
            ],
        ),
    )
}

/// The action when the config is readable and module support is off.
#[verifier::opaque]
pub open spec fn modules_decision(ev: Seq<Evidence>) -> Seq<DecisionActionView> {
    cond_seq(
        config_available(ev) && !spec_ev_bool(ev, "config.MODULES"@),
        dv(
            "Rebuild kernel with CONFIG_MODULES=y"@,
            "Kernel compiled without module support — cannot load any kernel modules."@,
            60,
            20,
            99,
            Difficulty::Hard,
            ActionPriority::Critical,
            true,
            seq![
                "Install a distro kernel package with modules enabled"@,
                "Most distribution kernels already have CONFIG_MODULES=y"@,
            ],
        ),
    )
}

/// The action when kallsyms is not readable.
#[verifier::opaque]
pub open spec fn kallsyms_decision(ev: Seq<Evidence>) -> Seq<DecisionActionView> {
    cond_seq(
        !kallsyms_readable(ev),
        dv(
            "Enable kallsyms access"@,
            "Symbol table not readable — symbol resolution and function hooking unavailable."@,
            1,
            8,
            2400,
            Difficulty::Trivial,
            ActionPriority::High,
            false,
            seq![
                "Run: echo 0 > /proc/sys/kernel/kptr_restrict (as root)"@,
                "Set kernel.kptr_restrict=0 in sysctl.conf"@,
                "Run zenvecha as root for symbol access"@,
            ],
        ),
    )
}

/// The action when BTF is configured but its data is missing.
#[verifier::opaque]
pub open spec fn btf_decision(ev: Seq<Evidence>) -> Seq<DecisionActionView> {
    cond_seq(
        spec_ev_bool(ev, "config.DEBUG_INFO_BTF"@) && !spec_ev_bool(ev, "debug.btf"@),
        dv(
            "Ensure BTF data available"@,
            "CONFIG_DEBUG_INFO_BTF=y but BTF data not found — type-aware kernel introspection disabled."@,
            10,
            5,
            150,
            Difficulty::Easy,
            ActionPriority::Medium,
            false,
            seq![
                "Rebuild kernel ensuring BTF generation succeeds"@,
                "Check /sys/kernel/btf/vmlinux exists"@,
            ],
        ),
    )
}

/// The action when debugfs is not mounted.
#[verifier::opaque]
pub open spec fn debugfs_decision(ev: Seq<Evidence>) -> Seq<DecisionActionView> {
    cond_seq(
        !spec_ev_bool(ev, "fs.debugfs"@),
        dv(
            "Mount debugfs"@,
            "debugfs provides kernel debugging interfaces used by many development tools."@,
            1,
            3,
            900,
            Difficulty::Trivial,
            ActionPriority::Medium,
            false,
            seq![
                "mount -t debugfs none /sys/kernel/debug (as root)"@,
                "Add to /etc/fstab for persistence"@,
            ],
        ),
    )
}

/// The action when tracefs is not mounted.
#[verifier::opaque]
pub open spec fn tracefs_decision(ev: Seq<Evidence>) -> Seq<DecisionActionView> {
    cond_seq(
        !spec_ev_bool(ev, "fs.tracefs"@),
        dv(
            "Mount tracefs"@,
            "tracefs enables ftrace-based function tracing used for kernel hooking."@,
            1,
            3,
            900,
            Difficulty::Trivial,
            ActionPriority::Medium,
            false,
            seq![
                "mount -t tracefs none /sys/kernel/tracing (as root)"@,
                "Add to /etc/fstab for persistence"@,
            ],
        ),
    )
}

/// The action when the kernel has Rust enabled and rustc is missing.
#[verifier::opaque]
pub open spec fn rustc_decision(ev: Seq<Evidence>) -> Seq<DecisionActionView> {
    cond_seq(
        spec_ev_bool(ev, "config.RUST"@) && !spec_ev_bool(ev, "toolchain.rustc"@),
        dv(
            "Install Rust compiler"@,
            "Kernel has CONFIG_RUST=y but rustc not found — cannot compile Rust kernel modules."@,
            5,
            10,
            600,
            Difficulty::Easy,
            ActionPriority::High,
            false,
            seq![
                "curl --proto '=https' --tlsv1.2 -sSf https://sh.rustup.rs | sh"@,
                "Install via package manager: apt install rustc cargo"@,
            ],
        ),
    )
}

/// The action when Rust and rustc are there and bindgen is missing.
#[verifier::opaque]
pub open spec fn bindgen_decision(ev: Seq<Evidence>) -> Seq<DecisionActionView> {
    cond_seq(
        spec_ev_bool(ev, "config.RUST"@) && spec_ev_bool(ev, "toolchain.rustc"@) && !spec_ev_bool(ev, "toolchain.bindgen"@),
        dv(
            "Install bindgen"@,
            "bindgen generates Rust FFI bindings to kernel C headers — required for Rust kernel modules."@,
            10,
            5,
            150,
            Difficulty::Easy,
            ActionPriority::Medium,
            false,
            seq![
                "cargo install bindgen-cli"@,
                "Install via package manager if available"@,
            ],
        ),
    )
}

/// The action when modules are enabled and module signing is not.
#[verifier::opaque]
pub open spec fn signing_decision(ev: Seq<Evidence>) -> Seq<DecisionActionView> {
    cond_seq(
        spec_ev_bool(ev, "config.MODULES"@) && !spec_ev_bool(ev, "config.MODULE_SIG"@),
        dv(
            "Set up module signing keys"@,
            "Module signing not configured — unsigned modules will fail to load on secure boot systems."@,
            15,
            4,
            81,
            Difficulty::Medium,
            ActionPriority::Low,
            false,
            seq![
                "Generate signing key and configure kernel"@,
                "Disable secure boot in BIOS (not recommended)"@,
            ],
        ),
    )
}

/// The candidate actions in the order they are considered.
pub open spec fn spec_build(ev: Seq<Evidence>, score: u8, header_gain: u8) -> Seq<DecisionActionView> {
    headers_decision(ev, header_gain) + gcc_decision(ev, score) + config_decision(ev)
        + modules_decision(ev) + kallsyms_decision(ev) + btf_decision(ev) + debugfs_decision(ev)
        + tracefs_decision(ev) + rustc_decision(ev) + bindgen_decision(ev) + signing_decision(ev)
}

/// The difficulty band of a task of `minutes` minutes: trivial under two,
/// easy up to ten, medium up to thirty, hard up to sixty, complex beyond.
pub open spec fn difficulty_of(minutes: u32) -> Difficulty {
    if minutes < 2 {
        Difficulty::Trivial
    } else if minutes <= 10 {
        Difficulty::Easy
    } else if minutes <= 30 {
        Difficulty::Medium
    } else if minutes <= 60 {
        Difficulty::Hard
    } else {
        Difficulty::Complex
    }
}

/// Every action's difficulty is the band of its estimated minutes.
pub open spec fn banded(s: Seq<DecisionActionView>) -> bool {
    forall|i: int| 0 <= i < s.len() ==> (#[trigger] s[i]).difficulty == difficulty_of(s[i].estimated_minutes)
}

proof fn lemma_banded_concat(a: Seq<DecisionActionView>, b: Seq<DecisionActionView>)
    requires
        banded(a),
        banded(b),
    ensures
        banded(a + b),
{
    assert forall|i: int| 0 <= i < (a + b).len() implies #[trigger] (a + b)[i].difficulty == difficulty_of(
        (a + b)[i].estimated_minutes,
    ) by {
        if i < a.len() {
            assert((a + b)[i] == a[i]);
        } else {
            assert((a + b)[i] == b[i - a.len()]);
        }
    }
}

/// Every candidate action carries the difficulty band of its estimated
/// time.
pub proof fn lemma_difficulty_matches_minutes(ev: Seq<Evidence>, score: u8, header_gain: u8)
    ensures
        banded(spec_build(ev, score, header_gain)),
{
    reveal(headers_decision);
    reveal(gcc_decision);
    reveal(config_decision);
    reveal(modules_decision);
    reveal(kallsyms_decision);
    reveal(btf_decision);
    reveal(debugfs_decision);
    reveal(tracefs_decision);
    reveal(rustc_decision);
    reveal(bindgen_decision);
    reveal(signing_decision);
    let s1 = headers_decision(ev, header_gain);
    let s2 = s1 + gcc_decision(ev, score);
    let s3 = s2 + config_decision(ev);
    let s4 = s3 + modules_decision(ev);
    let s5 = s4 + kallsyms_decision(ev);
    let s6 = s5 + btf_decision(ev);
    let s7 = s6 + debugfs_decision(ev);
    let s8 = s7 + tracefs_decision(ev);
    let s9 = s8 + rustc_decision(ev);
    let s10 = s9 + bindgen_decision(ev);
    lemma_banded_concat(s1, gcc_decision(ev, score));
    lemma_banded_concat(s2, config_decision(ev));
    lemma_banded_concat(s3, modules_decision(ev));
    lemma_banded_concat(s4, kallsyms_decision(ev));
    lemma_banded_concat(s5, btf_decision(ev));
    lemma_banded_concat(s6, debugfs_decision(ev));
    lemma_banded_concat(s7, tracefs_decision(ev));
    lemma_banded_concat(s8, rustc_decision(ev));
    lemma_banded_concat(s9, bindgen_decision(ev));
    lemma_banded_concat(s10, signing_decision(ev));
}

/// Every gain is at most 25 points and every action takes at most an hour.
pub open spec fn decisions_bounded(s: Seq<DecisionActionView>) -> bool {
    forall|i: int|
        0 <= i < s.len() ==> (#[trigger] s[i]).expected_score_gain <= 25 && s[i].estimated_minutes
            <= 60
}

fn push_decision(
    actions: &mut Vec<DecisionAction>,
    title: String,
    why: &str,
    estimated_minutes: u32,
    expected_score_gain: u8,
    roi: u32,
    difficulty: Difficulty,
    priority: ActionPriority,
    fixes_blocking: bool,
    alternatives: Vec<String>,
)
    requires
        expected_score_gain <= 25,
        estimated_minutes <= 60,
        decisions_bounded(decision_views(old(actions)@)),
    ensures
        decision_views(final(actions)@) == decision_views(old(actions)@).push(
            dv(
                title@,
                why@,
                estimated_minutes,
                expected_score_gain,
                roi,
                difficulty,
                priority,
                fixes_blocking,
                string_views(alternatives@),
            ),
        ),
        decisions_bounded(decision_views(final(actions)@)),
{
    let ghost before = decision_views(actions@);
    actions.push(
        DecisionAction {
            rank: 0,
            title,
            why: owned(why),
            estimated_minutes,
            expected_score_gain,
            roi,
            difficulty,
            priority,
            fixes_blocking,
            alternatives,
        },
    );
    assert(decision_views(actions@) =~= before.push(
        dv(
            title@,
            why@,
            estimated_minutes,
            expected_score_gain,
            roi,
            difficulty,
            priority,
            fixes_blocking,
            string_views(alternatives@),
        ),
    ));
}

/// The first component of `cs` named `name`.
pub open spec fn first_named(cs: Seq<ComponentView>, name: Seq<char>) -> Option<ComponentView>
    decreases cs.len(),
{
    if cs.len() == 0 {
        None
    } else if cs[0].name == name {
        Some(cs[0])
    } else {
        first_named(cs.drop_first(), name)
    }
}

/// Gain of installing headers: they unlock every other check, so the gain
/// is 25 when they are missing outright, 15 when partial, 8 otherwise.
pub open spec fn spec_header_gain(cs: Seq<ComponentView>) -> u8 {
    match first_named(cs, "Kernel Headers"@) {
        Some(c) => if c.score == 0 {
            25
        } else if c.score < 50 {
            15
        } else {
            8
        },
        None => 8,
    }
}

fn compute_header_gain(compatibility: &Compatibility) -> (r: u8)
    ensures
        r == spec_header_gain(component_views(compatibility.components@)),
{
    let cs = &compatibility.components;
    let ghost all = component_views(cs@);
    let mut i: usize = 0;
    assert(all.skip(0) =~= all);
    while i < cs.len()
        invariant
            i <= cs@.len(),
            all == component_views(cs@),
            all == component_views(compatibility.components@),
            first_named(all, "Kernel Headers"@) == first_named(all.skip(i as int), "Kernel Headers"@),
        decreases cs@.len() - i,
    {
        assert(all.skip(i as int).drop_first() =~= all.skip(i + 1));
        assert(all.skip(i as int)[0] == cs@[i as int]@);
        if str_eq(cs[i].name, "Kernel Headers") {
            let score = cs[i].score;
            assert(first_named(all.skip(i as int), "Kernel Headers"@) == Some(cs@[i as int]@));
            return if score == 0 {
                25
            } else if score < 50 {
                15
            } else {
                8
            };
        }
        i += 1;
    }
    8
}

fn add_headers_decision(evidence: &[Evidence], release: &str, gain: u8, actions: &mut Vec<DecisionAction>)
    requires
        decisions_bounded(decision_views(old(actions)@)),
        gain <= 25,
        release@ == release_text(evidence@),
    ensures
        decision_views(final(actions)@) == decision_views(old(actions)@) + headers_decision(evidence@, gain),
        decisions_bounded(decision_views(final(actions)@)),
        final(actions)@.len() <= old(actions)@.len() + 1,
{
    let headers_ok = ev_status_is(evidence, "build.headers", "Complete");
    let ghost before = decision_views(actions@);
    if !headers_ok {
        let alternative = concat3(
            "Install via package manager: apt install linux-headers-",
            release,
            " or pacman -S linux-headers",
        );
        push_decision(
            actions,
            concat2("Install matching kernel headers for ", release),
            "Missing headers prevent ALL external kernel module builds. This is the single most impactful fix.",
            3,
            gain,
            (gain as u32) * 100,
            Difficulty::Easy,
            ActionPriority::Critical,
            true,
            strings3(alternative.as_str(), "Compile custom kernel with headers", "Use distro-provided kernel package (if available)"),
        );
    }
    reveal(headers_decision);
    assert(((gain * 100) as u32) == (gain as u32) * 100);
    assert(decision_views(actions@) =~= before + headers_decision(evidence@, gain));
}

fn add_gcc_decision(evidence: &[Evidence], score: u8, actions: &mut Vec<DecisionAction>)
    requires
        decisions_bounded(decision_views(old(actions)@)),
    ensures
        decision_views(final(actions)@) == decision_views(old(actions)@) + gcc_decision(evidence@, score),
        decisions_bounded(decision_views(final(actions)@)),
        final(actions)@.len() <= old(actions)@.len() + 1,
{
    let gcc = ev_bool(evidence, "toolchain.gcc");
    let gain: u8 = if score < 30 {
        25
    } else {
        10
    };
    let ghost before = decision_views(actions@);
    if !gcc {
        push_decision(
            actions,
            owned("Install C build toolchain (gcc + make)"),
            "No C compiler found — kernel modules require a C toolchain for compilation.",
            5,
            gain,
            (gain as u32) * 60,
            Difficulty::Easy,
            ActionPriority::Critical,
            true,
            strings3("apt install build-essential", "pacman -S base-devel", "dnf groupinstall 'Development Tools'"),
        );
    }
    reveal(gcc_decision);
    assert(((gain * 60) as u32) == (gain as u32) * 60);
    assert(decision_views(actions@) =~= before + gcc_decision(evidence@, score));
}

fn add_config_decision(evidence: &[Evidence], actions: &mut Vec<DecisionAction>)
    requires
        decisions_bounded(decision_views(old(actions)@)),
    ensures
        decision_views(final(actions)@) == decision_views(old(actions)@) + config_decision(evidence@),
        decisions_bounded(decision_views(final(actions)@)),
        final(actions)@.len() <= old(actions)@.len() + 1,
{
    let cfg_available = ev_text_value(evidence, "config.source").is_some();
    let ghost before = decision_views(actions@);
    if !cfg_available {
        push_decision(
            actions,
            owned("Make kernel config accessible"),
            "Cannot read kernel config — compatibility assessment is incomplete without it.",
            2,
            15,
            2250,
            Difficulty::Easy,
            ActionPriority::Critical,
            true,
            strings3("Copy /boot/config-$(uname -r) if it exists", "Enable CONFIG_IKCONFIG_PROC and rebuild kernel", "Use zcat /proc/config.gz if available"),
        );
    }
    reveal(config_decision);
    assert(decision_views(actions@) =~= before + config_decision(evidence@));
}

fn add_modules_decision(evidence: &[Evidence], actions: &mut Vec<DecisionAction>)
    requires
        decisions_bounded(decision_views(old(actions)@)),
    ensures
        decision_views(final(actions)@) == decision_views(old(actions)@) + modules_decision(evidence@),
        decisions_bounded(decision_views(final(actions)@)),
        final(actions)@.len() <= old(actions)@.len() + 1,
{
    let cfg_available = ev_text_value(evidence, "config.source").is_some();
    let modules = ev_bool(evidence, "config.MODULES");
    let ghost before = decision_views(actions@);
    if cfg_available && !modules {
        push_decision(
            actions,
            owned("Rebuild kernel with CONFIG_MODULES=y"),
            "Kernel compiled without module support — cannot load any kernel modules.",
            60,
            20,
            99,
            Difficulty::Hard,
            ActionPriority::Critical,
            true,
            strings2("Install a distro kernel package with modules enabled", "Most distribution kernels already have CONFIG_MODULES=y"),
        );
    }
    reveal(modules_decision);
    assert(decision_views(actions@) =~= before + modules_decision(evidence@));
}

fn add_kallsyms_decision(evidence: &[Evidence], actions: &mut Vec<DecisionAction>)
    requires
        decisions_bounded(decision_views(old(actions)@)),
    ensures
        decision_views(final(actions)@) == decision_views(old(actions)@) + kallsyms_decision(evidence@),
        decisions_bounded(decision_views(final(actions)@)),
        final(actions)@.len() <= old(actions)@.len() + 1,
{
    let ks_ok = ev_status_is(evidence, "symbols.kallsyms", "readable") || ev_status_is(
        evidence,
        "symbols.kallsyms",
        "readable (root)",
    );
    let ghost before = decision_views(actions@);
    if !ks_ok {
        push_decision(
            actions,
            owned("Enable kallsyms access"),
            "Symbol table not readable — symbol resolution and function hooking unavailable.",
            1,
            8,
            2400,
            Difficulty::Trivial,
            ActionPriority::High,
            false,
            strings3("Run: echo 0 > /proc/sys/kernel/kptr_restrict (as root)", "Set kernel.kptr_restrict=0 in sysctl.conf", "Run zenvecha as root for symbol access"),
        );
    }
    reveal(kallsyms_decision);
    assert(decision_views(actions@) =~= before + kallsyms_decision(evidence@));
}

fn add_btf_decision(evidence: &[Evidence], actions: &mut Vec<DecisionAction>)
    requires
        decisions_bounded(decision_views(old(actions)@)),
    ensures
        decision_views(final(actions)@) == decision_views(old(actions)@) + btf_decision(evidence@),
        decisions_bounded(decision_views(final(actions)@)),
        final(actions)@.len() <= old(actions)@.len() + 1,
{
    let cfg_btf = ev_bool(evidence, "config.DEBUG_INFO_BTF");
    let btf = ev_bool(evidence, "debug.btf");
    let ghost before = decision_views(actions@);
    if cfg_btf && !btf {
        push_decision(
            actions,
            owned("Ensure BTF data available"),
            "CONFIG_DEBUG_INFO_BTF=y but BTF data not found — type-aware kernel introspection disabled.",
            10,
            5,
            150,
            Difficulty::Easy,
            ActionPriority::Medium,
            false,
            strings2("Rebuild kernel ensuring BTF generation succeeds", "Check /sys/kernel/btf/vmlinux exists"),
        );
    }
    reveal(btf_decision);
    assert(decision_views(actions@) =~= before + btf_decision(evidence@));
}

fn add_debugfs_decision(evidence: &[Evidence], actions: &mut Vec<DecisionAction>)
    requires
        decisions_bounded(decision_views(old(actions)@)),
    ensures
        decision_views(final(actions)@) == decision_views(old(actions)@) + debugfs_decision(evidence@),
        decisions_bounded(decision_views(final(actions)@)),
        final(actions)@.len() <= old(actions)@.len() + 1,
{
    let debugfs = ev_bool(evidence, "fs.debugfs");
    let ghost before = decision_views(actions@);
    if !debugfs {
        push_decision(
            actions,
            owned("Mount debugfs"),
            "debugfs provides kernel debugging interfaces used by many development tools.",
            1,
            3,
            900,
            Difficulty::Trivial,
            ActionPriority::Medium,
            false,
            strings2("mount -t debugfs none /sys/kernel/debug (as root)", "Add to /etc/fstab for persistence"),
        );
    }
    reveal(debugfs_decision);
    assert(decision_views(actions@) =~= before + debugfs_decision(evidence@));
}

fn add_tracefs_decision(evidence: &[Evidence], actions: &mut Vec<DecisionAction>)
    requires
        decisions_bounded(decision_views(old(actions)@)),
    ensures
        decision_views(final(actions)@) == decision_views(old(actions)@) + tracefs_decision(evidence@),
        decisions_bounded(decision_views(final(actions)@)),
        final(actions)@.len() <= old(actions)@.len() + 1,
{
    let tracefs = ev_bool(evidence, "fs.tracefs");
    let ghost before = decision_views(actions@);
    if !tracefs {
        push_decision(
            actions,
            owned("Mount tracefs"),
            "tracefs enables ftrace-based function tracing used for kernel hooking.",
            1,
            3,
            900,
            Difficulty::Trivial,
            ActionPriority::Medium,
            false,
            strings2("mount -t tracefs none /sys/kernel/tracing (as root)", "Add to /etc/fstab for persistence"),
        );
    }
    reveal(tracefs_decision);
    assert(decision_views(actions@) =~= before + tracefs_decision(evidence@));
}

fn add_rustc_decision(evidence: &[Evidence], actions: &mut Vec<DecisionAction>)
    requires
        decisions_bounded(decision_views(old(actions)@)),
    ensures
        decision_views(final(actions)@) == decision_views(old(actions)@) + rustc_decision(evidence@),
        decisions_bounded(decision_views(final(actions)@)),
        final(actions)@.len() <= old(actions)@.len() + 1,
{
    let rust = ev_bool(evidence, "config.RUST");
    let rustc = ev_bool(evidence, "toolchain.rustc");
    let ghost before = decision_views(actions@);
    if rust && !rustc {
        push_decision(
            actions,
            owned("Install Rust compiler"),
            "Kernel has CONFIG_RUST=y but rustc not found — cannot compile Rust kernel modules.",
            5,
            10,
            600,
            Difficulty::Easy,
            ActionPriority::High,
            false,
            strings2("curl --proto '=https' --tlsv1.2 -sSf https://sh.rustup.rs | sh", "Install via package manager: apt install rustc cargo"),
        );
    }
    reveal(rustc_decision);
    assert(decision_views(actions@) =~= before + rustc_decision(evidence@));
}

fn add_bindgen_decision(evidence: &[Evidence], actions: &mut Vec<DecisionAction>)
    requires
        decisions_bounded(decision_views(old(actions)@)),
    ensures
        decision_views(final(actions)@) == decision_views(old(actions)@) + bindgen_decision(evidence@),
        decisions_bounded(decision_views(final(actions)@)),
        final(actions)@.len() <= old(actions)@.len() + 1,
{
    let rust = ev_bool(evidence, "config.RUST");
    let rustc = ev_bool(evidence, "toolchain.rustc");
    let bindgen = ev_bool(evidence, "toolchain.bindgen");
    let ghost before = decision_views(actions@);
    if rust && rustc && !bindgen {
        push_decision(
            actions,
            owned("Install bindgen"),
            "bindgen generates Rust FFI bindings to kernel C headers — required for Rust kernel modules.",
            10,
            5,
            150,
            Difficulty::Easy,
            ActionPriority::Medium,
            false,
            strings2("cargo install bindgen-cli", "Install via package manager if available"),
        );
    }
    reveal(bindgen_decision);
    assert(decision_views(actions@) =~= before + bindgen_decision(evidence@));
}

fn add_signing_decision(evidence: &[Evidence], actions: &mut Vec<DecisionAction>)
    requires
        decisions_bounded(decision_views(old(actions)@)),
    ensures
        decision_views(final(actions)@) == decision_views(old(actions)@) + signing_decision(evidence@),
        decisions_bounded(decision_views(final(actions)@)),
        final(actions)@.len() <= old(actions)@.len() + 1,
{
    let modules = ev_bool(evidence, "config.MODULES");
    let mod_sig = ev_bool(evidence, "config.MODULE_SIG");
    let ghost before = decision_views(actions@);
    if modules && !mod_sig {
        push_decision(
            actions,
            owned("Set up module signing keys"),
            "Module signing not configured — unsigned modules will fail to load on secure boot systems.",
            15,
            4,
            81,
            Difficulty::Medium,
            ActionPriority::Low,
            false,
            strings2("Generate signing key and configure kernel", "Disable secure boot in BIOS (not recommended)"),
        );
    }
    reveal(signing_decision);
    assert(decision_views(actions@) =~= before + signing_decision(evidence@));
}

fn build_actions(evidence: &[Evidence], compatibility: &Compatibility) -> (r: Vec<DecisionAction>)
    ensures
        decision_views(r@) == spec_build(
            evidence@,
            compatibility.score,
            spec_header_gain(component_views(compatibility.components@)),
        ),
        decisions_bounded(decision_views(r@)),
        banded(decision_views(r@)),
        r@.len() <= 11,
{
    let ghost ev = evidence@;
    let mut actions: Vec<DecisionAction> = Vec::new();
    let ghost start = decision_views(actions@);
    let release = ev_s(evidence, "kernel.release");
    let release_str = if !str_eq(release.as_str(), "Unknown") {
        release
    } else {
        owned("$(uname -r)")
    };
    let header_gain = compute_header_gain(compatibility);
    add_headers_decision(evidence, release_str.as_str(), header_gain, &mut actions);
    let ghost mut acc = headers_decision(ev, header_gain);
    add_gcc_decision(evidence, compatibility.score, &mut actions);
    proof {
        lemma_concat_associative(start, acc, gcc_decision(ev, compatibility.score));
        acc = acc + gcc_decision(ev, compatibility.score);
    }
    add_config_decision(evidence, &mut actions);
    proof {
        lemma_concat_associative(start, acc, config_decision(ev));
        acc = acc + config_decision(ev);
    }
    add_modules_decision(evidence, &mut actions);
    proof {
        lemma_concat_associative(start, acc, modules_decision(ev));
        acc = acc + modules_decision(ev);
    }
    add_kallsyms_decision(evidence, &mut actions);
    proof {
        lemma_concat_associative(start, acc, kallsyms_decision(ev));
        acc = acc + kallsyms_decision(ev);
    }
    add_btf_decision(evidence, &mut actions);
    proof {
        lemma_concat_associative(start, acc, btf_decision(ev));
        acc = acc + btf_decision(ev);
    }
    add_debugfs_decision(evidence, &mut actions);
    proof {
        lemma_concat_associative(start, acc, debugfs_decision(ev));
        acc = acc + debugfs_decision(ev);
    }
    add_tracefs_decision(evidence, &mut actions);
    proof {
        lemma_concat_associative(start, acc, tracefs_decision(ev));
        acc = acc + tracefs_decision(ev);
    }
    add_rustc_decision(evidence, &mut actions);
    proof {
        lemma_concat_associative(start, acc, rustc_decision(ev));
        acc = acc + rustc_decision(ev);
    }
    add_bindgen_decision(evidence, &mut actions);
    proof {
        lemma_concat_associative(start, acc, bindgen_decision(ev));
        acc = acc + bindgen_decision(ev);
    }
    add_signing_decision(evidence, &mut actions);
    proof {
        lemma_concat_associative(start, acc, signing_decision(ev));
        acc = acc + signing_decision(ev);
    }
    assert(start =~= seq![]);
    proof {
        lemma_difficulty_matches_minutes(
            ev,
            compatibility.score,
            spec_header_gain(component_views(compatibility.components@)),
        );
    }
    actions
}

// ============================================================================
//  Score projection, confidence, opportunities
// ============================================================================

/// Sum of the expected gains.
pub open spec fn total_gain(s: Seq<DecisionActionView>) -> nat
    decreases s.len(),
{
    if s.len() == 0 {
        0
    } else {
        total_gain(s.drop_last()) + (s.last().expected_score_gain as nat)
    }
}

/// Sum of the estimated minutes.
pub open spec fn total_decision_minutes(s: Seq<DecisionActionView>) -> nat
    decreases s.len(),
{
    if s.len() == 0 {
        0
    } else {
        total_decision_minutes(s.drop_last()) + (s.last().estimated_minutes as nat)
    }
}

/// The current score raised by every gain, capped at 100.
pub open spec fn spec_expected_score(current: u8, actions: Seq<DecisionActionView>) -> u8 {
    let raised = current + total_gain(actions);
    if raised > 100 {
        100
    } else {
        raised as u8
    }
}

fn compute_expected_score(current: u8, actions: &Vec<DecisionAction>) -> (r: u8)
    requires
        actions@.len() <= 11,
        decisions_bounded(decision_views(actions@)),
    ensures
        r == spec_expected_score(current, decision_views(actions@)),
{
    let mut gain: u32 = 0;
    let mut i: usize = 0;
    while i < actions.len()
        invariant
            i <= actions@.len(),
            actions@.len() <= 11,
            decisions_bounded(decision_views(actions@)),
            gain == total_gain(decision_views(actions@.take(i as int))),
            gain <= 25 * i,
        decreases actions@.len() - i,
    {
        let ghost xs = decision_views(actions@.take(i + 1));
        assert(xs.drop_last() =~= decision_views(actions@.take(i as int)));
        assert(xs.last() == actions@[i as int]@);
        assert(decision_views(actions@)[i as int].expected_score_gain <= 25);
        gain = gain + actions[i].expected_score_gain as u32;
        i += 1;
    }
    assert(actions@.take(actions@.len() as int) =~= actions@);
    let raised = current as u32 + gain;
    if raised > 100 {
        100
    } else {
        raised as u8
    }
}

fn total_minutes_of(actions: &Vec<DecisionAction>) -> (r: u32)
    requires
        actions@.len() <= 11,
        decisions_bounded(decision_views(actions@)),
    ensures
        r == total_decision_minutes(decision_views(actions@)),
{
    let mut total: u32 = 0;
    let mut i: usize = 0;
    while i < actions.len()
        invariant
            i <= actions@.len(),
            actions@.len() <= 11,
            decisions_bounded(decision_views(actions@)),
            total == total_decision_minutes(decision_views(actions@.take(i as int))),
            total <= 60 * i,
        decreases actions@.len() - i,
    {
        let ghost xs = decision_views(actions@.take(i + 1));
        assert(xs.drop_last() =~= decision_views(actions@.take(i as int)));
        assert(xs.last() == actions@[i as int]@);
        assert(decision_views(actions@)[i as int].estimated_minutes <= 60);
        total = total + actions[i].estimated_minutes;
        i += 1;
    }
    assert(actions@.take(actions@.len() as int) =~= actions@);
    total
}

/// Some action fixes a blocking issue.
pub open spec fn any_fixes_blocking(s: Seq<DecisionActionView>) -> bool {
    exists|i: int| 0 <= i < s.len() && #[trigger] s[i].fixes_blocking
}

pub open spec fn from_compat_confidence(c: CompatConfidence) -> Confidence {
    match c {
        CompatConfidence::High => Confidence::High,
        CompatConfidence::Medium => Confidence::Medium,
        CompatConfidence::Low => Confidence::Low,
    }
}

/// High when there are blocking issues and some action fixes one;
/// otherwise the confidence of the assessment.
pub open spec fn spec_decision_confidence(
    blocking_len: nat,
    compat_confidence: CompatConfidence,
    actions: Seq<DecisionActionView>,
) -> Confidence {
    if blocking_len > 0 && any_fixes_blocking(actions) {
        Confidence::High
    } else {
        from_compat_confidence(compat_confidence)
    }
}

fn decision_confidence(compatibility: &Compatibility, actions: &Vec<DecisionAction>) -> (r: Confidence)
    ensures
        r == spec_decision_confidence(
            compatibility.blocking_issues@.len(),
            compatibility.confidence,
            decision_views(actions@),
        ),
{
    if compatibility.blocking_issues.len() > 0 {
        let mut i: usize = 0;
        while i < actions.len()
            invariant
                i <= actions@.len(),
                compatibility.blocking_issues@.len() > 0,
                forall|k: int| 0 <= k < i ==> !(#[trigger] decision_views(actions@)[k]).fixes_blocking,
            decreases actions@.len() - i,
        {
            if actions[i].fixes_blocking {
                assert(decision_views(actions@)[i as int].fixes_blocking);
                return Confidence::High;
            }
            i += 1;
        }
    }
    match compatibility.confidence {
        CompatConfidence::High => Confidence::High,
        CompatConfidence::Medium => Confidence::Medium,
        CompatConfidence::Low => Confidence::Low,
    }
}

/// Opportunities: things that would help but are not required.
#[verifier::opaque]
pub open spec fn spec_opportunities(ev: Seq<Evidence>) -> Seq<Seq<char>> {
    cond_seq(
        !spec_ev_bool(ev, "config.DEBUG_INFO_BTF"@),
        "Enable CONFIG_DEBUG_INFO_BTF for type-aware kernel introspection"@,
    ) + cond_seq(
        !spec_ev_bool(ev, "config.RUST"@) && spec_ev_bool(ev, "toolchain.rustc"@),
        "Rust compiler available — enable CONFIG_RUST=y to unlock Rust kernel modules"@,
    ) + cond_seq(
        !spec_ev_bool(ev, "config.LIVEPATCH"@) && spec_ev_bool(ev, "config.MODULES"@),
        "Enable CONFIG_LIVEPATCH for runtime kernel patching capability"@,
    ) + cond_seq(
        !spec_ev_bool(ev, "debug.dwarf"@),
        "DWARF debug info not available — limits detailed kernel analysis"@,
    )
}

/// Each opportunity is offered exactly when it applies: BTF when
/// CONFIG_DEBUG_INFO_BTF is off; Rust when CONFIG_RUST is off but a Rust
/// compiler is present; livepatch when CONFIG_LIVEPATCH is off and
/// CONFIG_MODULES is on; DWARF when no DWARF debug info was found.
pub proof fn lemma_opportunities_offered(ev: Seq<Evidence>)
    ensures
        spec_opportunities(ev).contains(
            "Enable CONFIG_DEBUG_INFO_BTF for type-aware kernel introspection"@,
        ) <==> !spec_ev_bool(ev, "config.DEBUG_INFO_BTF"@),
        spec_opportunities(ev).contains(
            "Rust compiler available — enable CONFIG_RUST=y to unlock Rust kernel modules"@,
        ) <==> (!spec_ev_bool(ev, "config.RUST"@) && spec_ev_bool(ev, "toolchain.rustc"@)),
        spec_opportunities(ev).contains(
            "Enable CONFIG_LIVEPATCH for runtime kernel patching capability"@,
        ) <==> (!spec_ev_bool(ev, "config.LIVEPATCH"@) && spec_ev_bool(ev, "config.MODULES"@)),
        spec_opportunities(ev).contains(
            "DWARF debug info not available — limits detailed kernel analysis"@,
        ) <==> !spec_ev_bool(ev, "debug.dwarf"@),
{
    reveal(spec_opportunities);
    reveal_strlit("Enable CONFIG_DEBUG_INFO_BTF for type-aware kernel introspection");
    reveal_strlit("Rust compiler available — enable CONFIG_RUST=y to unlock Rust kernel modules");
    reveal_strlit("Enable CONFIG_LIVEPATCH for runtime kernel patching capability");
    reveal_strlit("DWARF debug info not available — limits detailed kernel analysis");
    let x = "Enable CONFIG_DEBUG_INFO_BTF for type-aware kernel introspection"@;
    let y = "Rust compiler available — enable CONFIG_RUST=y to unlock Rust kernel modules"@;
    let z = "Enable CONFIG_LIVEPATCH for runtime kernel patching capability"@;
    let w = "DWARF debug info not available — limits detailed kernel analysis"@;
    assert(x[0] != w[0]);
    assert(x.len() != y.len() && x.len() != z.len() && y.len() != z.len() && y.len() != w.len()
        && z.len() != w.len());
    lemma_cond4_contains(
        !spec_ev_bool(ev, "config.DEBUG_INFO_BTF"@),
        x,
        !spec_ev_bool(ev, "config.RUST"@) && spec_ev_bool(ev, "toolchain.rustc"@),
        y,
        !spec_ev_bool(ev, "config.LIVEPATCH"@) && spec_ev_bool(ev, "config.MODULES"@),
        z,
        !spec_ev_bool(ev, "debug.dwarf"@),
        w,
    );
}

fn collect_opportunities(evidence: &[Evidence], _compatibility: &Compatibility) -> (r: Vec<String>)
    ensures
        string_views(r@) == spec_opportunities(evidence@),
{
    reveal(spec_opportunities);
    let mut opportunities: Vec<String> = Vec::new();
    let btf_cfg = ev_bool(evidence, "config.DEBUG_INFO_BTF");
    let rust = ev_bool(evidence, "config.RUST");
    let rustc = ev_bool(evidence, "toolchain.rustc");
    let livepatch = ev_bool(evidence, "config.LIVEPATCH");
    let modules = ev_bool(evidence, "config.MODULES");
    let dwarf = ev_bool(evidence, "debug.dwarf");
    push_str_if(
        &mut opportunities,
        !btf_cfg,
        "Enable CONFIG_DEBUG_INFO_BTF for type-aware kernel introspection",
    );
    push_str_if(
        &mut opportunities,
        !rust && rustc,
        "Rust compiler available — enable CONFIG_RUST=y to unlock Rust kernel modules",
    );
    push_str_if(
        &mut opportunities,
        !livepatch && modules,
        "Enable CONFIG_LIVEPATCH for runtime kernel patching capability",
    );
    push_str_if(
        &mut opportunities,
        !dwarf,
        "DWARF debug info not available — limits detailed kernel analysis",
    );
    assert(string_views(opportunities@) =~= spec_opportunities(evidence@));
    opportunities
}

/// Each blocking issue as "component: description".
pub open spec fn blocking_lines(bs: Seq<BlockingView>) -> Seq<Seq<char>> {
    bs.map_values(|b: BlockingView| b.component + ": "@ + b.description)
}

fn describe_blocking(compatibility: &Compatibility) -> (r: Vec<String>)
    ensures
        string_views(r@) == blocking_lines(blocking_views(compatibility.blocking_issues@)),
{
    let bs = &compatibility.blocking_issues;
    let mut r: Vec<String> = Vec::new();
    let mut i: usize = 0;
    while i < bs.len()
        invariant
            i <= bs@.len(),
            bs@ == compatibility.blocking_issues@,
            string_views(r@) == blocking_lines(blocking_views(bs@.take(i as int))),
        decreases bs@.len() - i,
    {
        let ghost before = string_views(r@);
        r.push(concat3(bs[i].component, ": ", bs[i].description.as_str()));
        assert(blocking_lines(blocking_views(bs@.take(i + 1))) =~= blocking_lines(
            blocking_views(bs@.take(i as int)),
        ).push(bs@[i as int].component@ + ": "@ + bs@[i as int].description@));
        assert(string_views(r@) =~= before.push(
            bs@[i as int].component@ + ": "@ + bs@[i as int].description@,
        ));
        i += 1;
    }
    assert(bs@.take(bs@.len() as int) =~= bs@);
    r
}

// ============================================================================
//  Entry point
// ============================================================================

/// The candidate actions, ranked: stably sorted by priority, return and
/// gain, then numbered from 1.
pub open spec fn spec_ranked(ev: Seq<Evidence>, score: u8, cs: Seq<ComponentView>) -> Seq<
    DecisionActionView,
> {
    with_ranks(stable_sorted(spec_build(ev, score, spec_header_gain(cs)), rank_order()))
}

/// Ranking keeps every candidate action exactly once, and puts no action
/// behind one it ranks before.
pub proof fn lemma_ranking_keeps_actions(ev: Seq<Evidence>, score: u8, cs: Seq<ComponentView>)
    ensures
        stable_sorted(spec_build(ev, score, spec_header_gain(cs)), rank_order()).to_multiset()
            =~= spec_build(ev, score, spec_header_gain(cs)).to_multiset(),
        ordered_by(
            stable_sorted(spec_build(ev, score, spec_header_gain(cs)), rank_order()),
            rank_order(),
        ),
{
    lemma_rank_order();
    lemma_stable_sorted(spec_build(ev, score, spec_header_gain(cs)), rank_order());
}

/// Index `i` holds the largest return on time of `s`, and no earlier
/// action has as much.
pub open spec fn first_best_roi(s: Seq<DecisionActionView>, i: int) -> bool {
    &&& 0 <= i < s.len()
    &&& forall|j: int| 0 <= j < s.len() ==> (#[trigger] s[j]).roi <= s[i].roi
    &&& forall|j: int| 0 <= j < i ==> (#[trigger] s[j]).roi < s[i].roi
}

/// The index of the first action with the largest return on time.
fn highest_roi(actions: &Vec<DecisionAction>) -> (r: Option<usize>)
    ensures
        r is None <==> actions@.len() == 0,
        r matches Some(i) ==> first_best_roi(decision_views(actions@), i as int),
{
    if actions.len() == 0 {
        return None;
    }
    let ghost v = decision_views(actions@);
    let mut best: usize = 0;
    let mut i: usize = 1;
    while i < actions.len()
        invariant
            v == decision_views(actions@),
            1 <= i <= actions@.len(),
            best < i,
            forall|j: int| 0 <= j < i ==> (#[trigger] v[j]).roi <= v[best as int].roi,
            forall|j: int| 0 <= j < best ==> (#[trigger] v[j]).roi < v[best as int].roi,
        decreases actions@.len() - i,
    {
        assert(v[i as int].roi == actions@[i as int].roi);
        assert(v[best as int].roi == actions@[best as int].roi);
        if actions[i].roi > actions[best].roi {
            best = i;
        }
        i += 1;
    }
    Some(best)
}

/// Evaluates evidence and a compatibility assessment into a decision plan.
pub fn evaluate(evidence: &[Evidence], compatibility: &Compatibility) -> (r: DecisionPlan)
    ensures
        r.current_score == compatibility.score,
        decision_views(r.ranked_actions@) == spec_ranked(
            evidence@,
            compatibility.score,
            component_views(compatibility.components@),
        ),
        ordered_by(decision_views(r.ranked_actions@), rank_order()),
        banded(decision_views(r.ranked_actions@)),
        forall|i: int|
            0 <= i < r.ranked_actions@.len() ==> #[trigger] r.ranked_actions@[i].rank == i + 1,
        r.highest_roi_action is Some <==> r.ranked_actions@.len() > 0,
        r.highest_roi_action matches Some(a) ==> exists|i: int|
            #[trigger] first_best_roi(decision_views(r.ranked_actions@), i) && a@ == decision_views(
                r.ranked_actions@,
            )[i],
        r.expected_score == spec_expected_score(
            compatibility.score,
            spec_build(
                evidence@,
                compatibility.score,
                spec_header_gain(component_views(compatibility.components@)),
            ),
        ),
        r.confidence == spec_decision_confidence(
            compatibility.blocking_issues@.len(),
            compatibility.confidence,
            spec_build(
                evidence@,
                compatibility.score,
                spec_header_gain(component_views(compatibility.components@)),
            ),
        ),
        string_views(r.blocking_issues@) == blocking_lines(
            blocking_views(compatibility.blocking_issues@),
        ),
        string_views(r.opportunities@) == spec_opportunities(evidence@),
        string_views(r.opportunities@).contains(
            "Enable CONFIG_DEBUG_INFO_BTF for type-aware kernel introspection"@,
        ) <==> !spec_ev_bool(evidence@, "config.DEBUG_INFO_BTF"@),
        string_views(r.opportunities@).contains(
            "Rust compiler available — enable CONFIG_RUST=y to unlock Rust kernel modules"@,
        ) <==> (!spec_ev_bool(evidence@, "config.RUST"@) && spec_ev_bool(
            evidence@,
            "toolchain.rustc"@,
        )),
        string_views(r.opportunities@).contains(
            "DWARF debug info not available — limits detailed kernel analysis"@,
        ) <==> !spec_ev_bool(evidence@, "debug.dwarf"@),
        string_views(r.opportunities@).contains(
            "Enable CONFIG_LIVEPATCH for runtime kernel patching capability"@,
        ) <==> (!spec_ev_bool(evidence@, "config.LIVEPATCH"@) && spec_ev_bool(
            evidence@,
            "config.MODULES"@,
        )),
        r.estimated_total_fix_minutes == total_decision_minutes(
            spec_build(
                evidence@,
                compatibility.score,
                spec_header_gain(component_views(compatibility.components@)),
            ),
        ),
{
    broadcast use vstd::seq_lib::group_to_multiset_ensures;

    let actions = build_actions(evidence, compatibility);
    let ghost built = decision_views(actions@);
    let expected_score = compute_expected_score(compatibility.score, &actions);
    let confidence = decision_confidence(compatibility, &actions);
    let total_fix = total_minutes_of(&actions);
    let ranked = rank_actions(actions);
    proof {
        lemma_rank_order();
        lemma_stable_sorted(built, rank_order());
        let ss = stable_sorted(built, rank_order());
        assert(ss.to_multiset().len() == built.to_multiset().len());
    }
    let ghost rv = decision_views(ranked@);
    proof {
        let ss = stable_sorted(built, rank_order());
        assert forall|i: int, j: int| 0 <= i < j < rv.len() implies !rank_order()(
            #[trigger] rv[j],
            #[trigger] rv[i],
        ) by {
            assert(!rank_order()(ss[j], ss[i]));
        }
        assert(rv.len() <= 11);
        assert forall|i: int| 0 <= i < rv.len() implies #[trigger] rv[i].difficulty == difficulty_of(
            rv[i].estimated_minutes,
        ) by {
            assert(ss.to_multiset().count(ss[i]) > 0);
            assert(built.to_multiset().count(ss[i]) > 0);
            assert(built.contains(ss[i]));
            let k = choose|k: int| 0 <= k < built.len() && built[k] == ss[i];
            assert(built[k].difficulty == difficulty_of(built[k].estimated_minutes));
        }
        assert forall|i: int| 0 <= i < ranked@.len() implies #[trigger] ranked@[i].rank == i
            + 1 by {
            assert(rv[i].rank == ranked@[i].rank);
        }
    }
    let highest_roi_action = match highest_roi(&ranked) {
        Some(i) => Some(ranked[i].duplicate()),
        None => None,
    };
    let blocking_desc = describe_blocking(compatibility);
    let opportunities = collect_opportunities(evidence, compatibility);
    proof {
        lemma_opportunities_offered(evidence@);
    }
    DecisionPlan {
        current_score: compatibility.score,
        expected_score,
        confidence,
        highest_roi_action,
        ranked_actions: ranked,
        blocking_issues: blocking_desc,
        opportunities,
        estimated_total_fix_minutes: total_fix,
    }
}

/// The projected score is at most 100, and from a current score of at
/// most 100 it never goes down.
pub proof fn lemma_expected_score_bounds(current: u8, actions: Seq<DecisionActionView>)
    ensures
        spec_expected_score(current, actions) <= 100,
        current <= 100 ==> current <= spec_expected_score(current, actions),
{
}

} // verus!
