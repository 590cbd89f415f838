use lib::analysis::analyze;
use lib::analysis::compatibility::{assess, ComponentStatus, Confidence, RiskLevel};
use lib::analysis::decision::{evaluate, ActionPriority, Confidence as DecisionConfidence, Difficulty};
use lib::analysis::prediction::{simulate, PredictedRisk, PredictionConfidence};
use lib::analysis::readiness::{compute_categories, overall_rating, stars_label, CategoryScore};
use lib::analysis::risk::identify_risks;
use lib::evidence::{Evidence, EvidenceValue};
use lib::kconfig::ConfigValue;

fn text(id: &'static str, v: &str) -> Evidence {
    Evidence::present(id, EvidenceValue::Text(Some(v.to_string())))
}

fn flag(id: &'static str, b: bool) -> Evidence {
    Evidence::present(id, EvidenceValue::Bool(b))
}

fn cfg(id: &'static str, v: ConfigValue) -> Evidence {
    Evidence::present(id, EvidenceValue::Config(v))
}

fn status(id: &'static str, s: &'static str) -> Evidence {
    Evidence::present(id, EvidenceValue::Status(s))
}

/// A machine with everything installed and enabled.
fn full_evidence() -> Vec<Evidence> {
    vec![
        text("kernel.release", "6.9.1-arch1-1"),
        text("config.source", "/proc/config.gz"),
        status("build.headers", "Complete"),
        Evidence::present("build.dir", EvidenceValue::Path(Some("/lib/modules/6.9.1/build".into()))),
        Evidence::present("build.source", EvidenceValue::Path(Some("/usr/src/linux".into()))),
        flag("build.compile_commands", true),
        cfg("config.MODULES", ConfigValue::Yes),
        cfg("config.MODULE_SIG", ConfigValue::Yes),
        cfg("config.BPF", ConfigValue::Yes),
        cfg("config.KALLSYMS", ConfigValue::Yes),
        cfg("config.LIVEPATCH", ConfigValue::Yes),
        text("modules.loader", "kmod"),
        status("symbols.kallsyms", "readable"),
        Evidence::present("symbols.count", EvidenceValue::Count(150000)),
        text("symbols.vmlinux", "/sys/kernel/btf/vmlinux"),
        text("symbols.symvers", "/lib/modules/6.9.1/build/Module.symvers"),
        cfg("config.RUST", ConfigValue::Yes),
        cfg("config.RUST_IS_AVAILABLE", ConfigValue::Yes),
        flag("toolchain.rustc", true),
        flag("toolchain.bindgen", true),
        flag("toolchain.llvm", true),
        flag("toolchain.make", true),
        flag("toolchain.gcc", true),
        flag("debug.btf", true),
        flag("debug.dwarf", true),
        cfg("config.DEBUG_INFO_BTF", ConfigValue::Yes),
        flag("fs.debugfs", true),
        flag("fs.tracefs", true),
    ]
}

#[test]
fn assess_empty_evidence_is_critical() {
    let c = assess(&[]);
    // Only the unreadable configuration scores (10 points at weight 0.15).
    assert_eq!(c.score, 2);
    assert_eq!(c.level, "Critical");
    assert_eq!(c.confidence, Confidence::Low);
    assert_eq!(c.risk, RiskLevel::Critical);
    assert_eq!(c.blocking_issues.len(), 3);
    assert_eq!(c.blocking_issues[0].component, "Kernel Configuration");
    assert_eq!(c.blocking_issues[1].component, "Kernel Headers");
    assert_eq!(c.blocking_issues[1].description, "Kernel headers not installed for Unknown");
    assert_eq!(c.blocking_issues[2].component, "Toolchain");
    let priorities: Vec<u8> = c.recommended_actions.iter().map(|a| a.priority).collect();
    assert_eq!(priorities, vec![1, 1, 1, 2, 3, 3]);
    assert_eq!(c.recommended_actions[0].component, "config");
    assert_eq!(
        c.recommended_actions[1].action,
        "Install kernel headers: apt install linux-headers-$(uname -r) or pacman -S linux-headers"
    );
    assert_eq!(c.estimated_fix_minutes, 13);
    assert_eq!(c.affected_components.len(), 9);
    assert_eq!(
        c.next_best_action,
        "→ Resolve: Cannot read kernel config — install kernel headers or enable CONFIG_IKCONFIG_PROC"
    );
    let scores: Vec<u8> = c.components.iter().map(|s| s.score).collect();
    assert_eq!(scores, vec![0, 0, 10, 0, 0, 0, 0, 0, 0]);
}

#[test]
fn assess_full_evidence_scores_weighted_components() {
    let c = assess(&full_evidence());
    let scores: Vec<u8> = c.components.iter().map(|s| s.score).collect();
    assert_eq!(scores, vec![100; 9]);
    // The weights add up to one whole.
    assert_eq!(c.score, 100);
    assert_eq!(c.level, "Excellent");
    assert_eq!(c.confidence, Confidence::High);
    assert_eq!(c.risk, RiskLevel::NoRisk);
    assert!(c.blocking_issues.is_empty());
    assert!(c.recommended_actions.is_empty());
    assert!(c.affected_components.is_empty());
    assert_eq!(c.estimated_fix_minutes, 0);
    assert_eq!(c.next_best_action, "✓ System ready for kernel development");
    assert_eq!(c.components[0].detail, "Headers match running kernel (6.9.1-arch1-1)");
    assert_eq!(c.components[0].status, ComponentStatus::Good);
}

#[test]
fn weights_sum_to_one_hundred() {
    let c = assess(&[]);
    let total: u32 = c.weights.iter().map(|w| w.weight_percent as u32).sum();
    assert_eq!(total, 100);
    assert_eq!(c.weights[0].name, "Kernel Headers");
    assert_eq!(c.weights[0].weight_percent, 25);
}

#[test]
fn assessment_score_never_exceeds_one_hundred() {
    for ev in [Vec::new(), full_evidence()] {
        let c = assess(&ev);
        assert!(c.score <= 100);
        assert!(c.components.iter().all(|s| s.score <= 100));
    }
}

#[test]
fn partial_headers_score_forty() {
    let ev = vec![text("kernel.release", "6.1.0"), status("build.headers", "Partial")];
    let c = assess(&ev);
    assert_eq!(c.components[0].score, 40);
    assert_eq!(c.components[0].status, ComponentStatus::Partial);
    assert_eq!(c.components[0].detail, "Headers found but incomplete for 6.1.0");
    // 40 * 0.25 + 10 * 0.15 = 11.5, rounded half up
    assert_eq!(c.score, 12);
    assert_eq!(c.level, "Critical");
}

#[test]
fn modules_missing_blocks_with_config() {
    let ev = vec![text("config.source", "/boot/config"), cfg("config.MODULES", ConfigValue::No)];
    let c = assess(&ev);
    assert!(c.blocking_issues.iter().any(|b| b.component == "Module Support"));
    assert!(c
        .recommended_actions
        .iter()
        .any(|a| a.action == "Rebuild kernel with CONFIG_MODULES=y" && a.estimated_minutes == 60));
}

#[test]
fn recommendations_keep_at_most_seven() {
    let ev = vec![
        text("config.source", "/boot/config"),
        cfg("config.MODULES", ConfigValue::No),
        cfg("config.RUST", ConfigValue::Yes),
        cfg("config.DEBUG_INFO_BTF", ConfigValue::Yes),
    ];
    let c = assess(&ev);
    assert!(c.recommended_actions.len() <= 7);
    for w in c.recommended_actions.windows(2) {
        assert!(w[0].priority <= w[1].priority);
    }
}

#[test]
fn evaluate_empty_evidence_ranks_critical_first() {
    let ev: Vec<Evidence> = Vec::new();
    let c = assess(&ev);
    let plan = evaluate(&ev, &c);
    let titles: Vec<&str> = plan.ranked_actions.iter().map(|a| a.title.as_str()).collect();
    assert_eq!(
        titles,
        vec![
            "Install matching kernel headers for $(uname -r)",
            "Make kernel config accessible",
            "Install C build toolchain (gcc + make)",
            "Enable kallsyms access",
            "Mount debugfs",
            "Mount tracefs",
        ]
    );
    let ranks: Vec<u8> = plan.ranked_actions.iter().map(|a| a.rank).collect();
    assert_eq!(ranks, vec![1, 2, 3, 4, 5, 6]);
    assert_eq!(plan.ranked_actions[0].expected_score_gain, 25);
    assert_eq!(plan.ranked_actions[0].priority, ActionPriority::Critical);
    assert_eq!(plan.ranked_actions[3].priority, ActionPriority::High);
    assert_eq!(plan.current_score, 2);
    assert_eq!(plan.expected_score, 81);
    assert_eq!(plan.confidence, DecisionConfidence::High);
    assert_eq!(plan.estimated_total_fix_minutes, 13);
    assert_eq!(
        plan.highest_roi_action.as_ref().map(|a| a.title.as_str()),
        Some("Install matching kernel headers for $(uname -r)")
    );
    assert_eq!(
        plan.blocking_issues,
        vec![
            "Kernel Configuration: Cannot read kernel config — install kernel headers or enable CONFIG_IKCONFIG_PROC".to_string(),
            "Kernel Headers: Kernel headers not installed for Unknown".to_string(),
            "Toolchain: No C compiler found — install gcc or clang".to_string(),
        ]
    );
    assert_eq!(
        plan.opportunities,
        vec![
            "Enable CONFIG_DEBUG_INFO_BTF for type-aware kernel introspection".to_string(),
            "DWARF debug info not available — limits detailed kernel analysis".to_string(),
        ]
    );
}

#[test]
fn evaluate_full_evidence_has_nothing_to_do() {
    let ev = full_evidence();
    let c = assess(&ev);
    let plan = evaluate(&ev, &c);
    assert!(plan.ranked_actions.is_empty());
    assert!(plan.highest_roi_action.is_none());
    assert_eq!(plan.expected_score, 100);
    assert_eq!(plan.confidence, DecisionConfidence::High);
    assert!(plan.opportunities.is_empty());
}

#[test]
fn expected_score_is_capped_at_one_hundred() {
    let ev: Vec<Evidence> = Vec::new();
    let mut c = assess(&ev);
    c.score = 95;
    let plan = evaluate(&ev, &c);
    assert_eq!(plan.expected_score, 100);
    assert!(plan.expected_score >= plan.current_score);
}

#[test]
fn debugfs_and_tracefs_tie_keeps_order() {
    let mut ev = full_evidence();
    ev.retain(|e| e.id != "fs.debugfs" && e.id != "fs.tracefs");
    let c = assess(&ev);
    let plan = evaluate(&ev, &c);
    let titles: Vec<&str> = plan.ranked_actions.iter().map(|a| a.title.as_str()).collect();
    assert_eq!(titles, vec!["Mount debugfs", "Mount tracefs"]);
    assert_eq!(plan.ranked_actions[0].priority, ActionPriority::Medium);
}

#[test]
fn simulate_orders_by_expected_score() {
    let ev: Vec<Evidence> = Vec::new();
    let c = assess(&ev);
    let plan = evaluate(&ev, &c);
    let pred = simulate(&ev, &c, &plan);
    assert_eq!(pred.current_score, 2);
    let scores: Vec<u8> = pred.scenarios.iter().map(|s| s.expected_score).collect();
    assert_eq!(scores, vec![27, 27, 17, 10, 5, 5]);
    let first = &pred.scenarios[0];
    assert_eq!(first.title, "Apply: Install matching kernel headers for $(uname -r)");
    assert_eq!(first.score_delta, 25);
    assert_eq!(first.expected_build_success, 70);
    assert_eq!(first.expected_risk, PredictedRisk::Medium);
    assert_eq!(pred.scenarios[1].action, "Install C build toolchain (gcc + make)");
    for s in &pred.scenarios {
        assert!(s.expected_score <= 100);
        assert!(s.expected_build_success <= 100);
        assert!(s.score_delta >= 0);
    }
}

#[test]
fn prediction_confidence_percentages() {
    assert_eq!(PredictionConfidence::High.percentage(), 92);
    assert_eq!(PredictionConfidence::Medium.percentage(), 72);
    assert_eq!(PredictionConfidence::Low.percentage(), 45);
    assert_eq!(PredictionConfidence::Medium.label(), "Medium");
    assert_eq!(PredictedRisk::NoRisk.label(), "None");
}

#[test]
fn readiness_of_empty_evidence() {
    let (r, risks) = analyze(&[]);
    let stars: Vec<u8> = r.categories.iter().map(|c| c.stars).collect();
    assert_eq!(stars, vec![1, 0, 1, 0, 1, 1]);
    assert_eq!(r.overall, "Needs Attention");
    assert_eq!(r.stars, "★☆☆☆☆");
    let descriptions: Vec<&str> = risks.iter().map(|r| r.description.as_str()).collect();
    assert_eq!(
        descriptions,
        vec![
            "CONFIG_RUST not enabled — Rust-for-Linux unavailable",
            "CONFIG_MODULES not set — kernel module support missing",
            "Kallsyms hidden — symbol analysis limited",
        ]
    );
    assert_eq!(risks[1].severity, "critical");
}

#[test]
fn readiness_of_full_evidence() {
    let ev = full_evidence();
    let cats = compute_categories(&ev);
    let names: Vec<&str> = cats.iter().map(|c| c.name).collect();
    assert_eq!(names, vec!["Kernel", "Headers", "Module Dev", "Rust", "Debug", "Toolchain"]);
    let stars: Vec<u8> = cats.iter().map(|c| c.stars).collect();
    assert_eq!(stars, vec![4, 5, 5, 5, 5, 5]);
    assert!(stars.iter().all(|s| *s <= 5));
    assert_eq!(overall_rating(&cats), "Ready");
    assert_eq!(stars_label(&cats), "★★★★☆");
    // Kallsyms reported as a status is not a boolean, so a risk remains.
    let risks = identify_risks(&ev);
    assert_eq!(risks.len(), 1);
    assert_eq!(risks[0].description, "Kallsyms hidden — symbol analysis limited");
}

#[test]
fn overall_rating_thresholds() {
    let make = |stars: [u8; 6]| -> Vec<CategoryScore> {
        stars.iter().map(|s| CategoryScore { name: "x", stars: *s, note: "" }).collect()
    };
    assert_eq!(overall_rating(&make([5, 5, 5, 5, 5, 5])), "Ready");
    assert_eq!(overall_rating(&make([4, 4, 4, 3, 3, 2])), "Mostly Ready");
    assert_eq!(overall_rating(&make([4, 4, 3, 3, 3, 2])), "Needs Work");
    assert_eq!(overall_rating(&make([4, 4, 3, 3, 2, 2])), "Needs Attention");
    assert_eq!(stars_label(&make([5, 5, 5, 5, 5, 5])), "★★★★★");
    assert_eq!(stars_label(&make([3, 3, 3, 3, 3, 3])), "★★★☆☆");
    assert_eq!(stars_label(&make([2, 2, 2, 2, 2, 2])), "★★☆☆☆");
}

#[test]
fn return_on_time_in_three_hundredths() {
    // roi is gain per minute, counted in 1/300 units: 25 points in 3 min
    // is 8.33 per minute, 2500 units.
    let ev: Vec<Evidence> = Vec::new();
    let c = assess(&ev);
    let plan = evaluate(&ev, &c);
    let rois: Vec<u32> = plan.ranked_actions.iter().map(|a| a.roi).collect();
    assert_eq!(rois, vec![2500, 2250, 1500, 2400, 900, 900]);
    for a in &plan.ranked_actions {
        assert_eq!(a.roi as u64 * a.estimated_minutes as u64, a.expected_score_gain as u64 * 300);
    }
    assert_eq!(
        plan.ranked_actions[0].alternatives[0],
        "Install via package manager: apt install linux-headers-$(uname -r) or pacman -S linux-headers"
    );
}

#[test]
fn difficulty_follows_estimated_minutes() {
    let ev: Vec<Evidence> = Vec::new();
    let c = assess(&ev);
    let plan = evaluate(&ev, &c);
    let d: Vec<Difficulty> = plan.ranked_actions.iter().map(|a| a.difficulty).collect();
    assert_eq!(
        d,
        vec![
            Difficulty::Easy,
            Difficulty::Easy,
            Difficulty::Easy,
            Difficulty::Trivial,
            Difficulty::Trivial,
            Difficulty::Trivial,
        ]
    );
    for a in &plan.ranked_actions {
        let band = match a.estimated_minutes {
            0..=1 => Difficulty::Trivial,
            2..=10 => Difficulty::Easy,
            11..=30 => Difficulty::Medium,
            31..=60 => Difficulty::Hard,
            _ => Difficulty::Complex,
        };
        assert_eq!(a.difficulty, band);
    }
}

#[test]
fn highest_roi_action_is_the_best_return() {
    let ev = vec![
        text("config.source", "/boot/config"),
        cfg("config.MODULES", ConfigValue::No),
        status("symbols.kallsyms", "hidden"),
        status("build.headers", "Complete"),
        flag("toolchain.gcc", true),
    ];
    let c = assess(&ev);
    let plan = evaluate(&ev, &c);
    let titles: Vec<&str> = plan.ranked_actions.iter().map(|a| a.title.as_str()).collect();
    assert_eq!(
        titles,
        vec!["Rebuild kernel with CONFIG_MODULES=y", "Enable kallsyms access", "Mount debugfs", "Mount tracefs"]
    );
    assert_eq!(plan.ranked_actions[0].difficulty, Difficulty::Hard);
    let best = plan.highest_roi_action.as_ref().unwrap();
    assert_eq!(best.title, "Enable kallsyms access");
    assert_eq!(best.roi, 2400);
    assert!(plan.ranked_actions.iter().all(|a| a.roi <= best.roi));
}
