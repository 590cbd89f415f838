use lib::inspect::{
    bool_line, bool_opt_line, capability_summary, check_line, config_row, dot_pad, kallsyms_line,
    kv_line, tri_check_line, tri_state, CheckMark, InspectFacts, SummaryCheck,
};
use lib::kernel::capability::probes::arch::ArchitectureProbe;
use lib::kernel::capability::probes::{all_probes, total_descriptors, Probe};
use lib::kernel::livepatch::dummy_target::{
    verify_patch, zenvecha_dummy_func, zenvecha_dummy_patched, DummyTargetInfo,
};
use lib::kernel::livepatch::executor::LivepatchExecutor;

const CONFIG: &str = "CONFIG_MODULES=y\nCONFIG_DEBUG_INFO_BTF=y\nCONFIG_LIVEPATCH=m\n# CONFIG_RUST is not set\n";

fn facts() -> InspectFacts {
    InspectFacts {
        headers_available: true,
        signing_enabled: Some(false),
        btf_available: true,
        kallsyms_exists: true,
        kallsyms_readable: true,
        compiler_available: true,
    }
}

#[test]
fn report_lines() {
    assert_eq!(kv_line("  Version", Some("6.9.1")), "  Version : 6.9.1");
    assert_eq!(kv_line("  Version", Some("")), "  Version : Unknown");
    assert_eq!(kv_line("  Version", None), "  Version : Unknown");
    assert_eq!(bool_line("  BTF", true), "  BTF : present");
    assert_eq!(bool_line("  BTF", false), "  BTF : not present");
    assert_eq!(bool_opt_line("  Module signing", Some(true)), "  Module signing : enabled");
    assert_eq!(bool_opt_line("  Module signing", Some(false)), "  Module signing : disabled");
    assert_eq!(bool_opt_line("  Module signing", None), "  Module signing : Unknown");
    assert_eq!(check_line("symbol analysis", true), "  ✔ symbol analysis");
    assert_eq!(check_line("symbol analysis", false), "  ✘ symbol analysis");
    assert_eq!(tri_check_line("BTF", true, false), "  ? BTF");
    assert_eq!(tri_check_line("BTF", true, true), "  ✔ BTF");
    assert_eq!(tri_check_line("BTF", false, true), "  ✘ BTF");
    assert_eq!(tri_state(false, false), CheckMark::Unknown);
    assert_eq!(kallsyms_line(false, true, true), "  /proc/kallsyms : not found");
    assert_eq!(kallsyms_line(true, false, true), "  /proc/kallsyms : present, permission denied");
    assert_eq!(kallsyms_line(true, true, true), "  /proc/kallsyms : present, readable (root only)");
    assert_eq!(kallsyms_line(true, true, false), "  /proc/kallsyms : present, readable");
}

#[test]
fn config_rows_match_dot_padding() {
    for key in ["MODULES", "LIVEPATCH", "RUST", "BPF"] {
        let label = format!("  CONFIG_{key}");
        assert_eq!(dot_pad(&label, 36), format!("{label:.<36}"));
    }
    let long = "x".repeat(40);
    assert_eq!(dot_pad(&long, 36), long);
    assert_eq!(
        config_row(Some(CONFIG), "LIVEPATCH"),
        format!("  {:.<36} m", "  CONFIG_LIVEPATCH")
    );
    assert_eq!(
        config_row(Some(CONFIG), "MODULES"),
        format!("  {:.<36} y", "  CONFIG_MODULES")
    );
    assert_eq!(
        config_row(Some(CONFIG), "RUST"),
        format!("  {:.<36} not set", "  CONFIG_RUST")
    );
    assert_eq!(
        config_row(Some(CONFIG), "BPF"),
        format!("  {:.<36} Unknown", "  CONFIG_BPF")
    );
    assert_eq!(
        config_row(None, "MODULES"),
        format!("  {:.<36} Unknown", "  CONFIG_MODULES")
    );
}

#[test]
fn capability_summary_with_config() {
    let s = capability_summary(Some(CONFIG), facts());
    assert_eq!(s.rust_for_linux, SummaryCheck { ok: false, known: true });
    assert_eq!(s.modules, SummaryCheck { ok: true, known: true });
    assert_eq!(s.module_signing, SummaryCheck { ok: false, known: true });
    assert_eq!(s.btf, SummaryCheck { ok: true, known: true });
    assert_eq!(s.livepatch, SummaryCheck { ok: true, known: true });
    assert_eq!(s.kallsyms, SummaryCheck { ok: true, known: true });
    assert!(s.module_development);
    assert!(s.symbol_analysis);
    assert!(s.live_patching);
}

#[test]
fn capability_summary_without_config() {
    let mut f = facts();
    f.kallsyms_readable = false;
    f.signing_enabled = None;
    let s = capability_summary(None, f);
    assert_eq!(s.rust_for_linux, SummaryCheck { ok: false, known: false });
    assert_eq!(s.modules, SummaryCheck { ok: false, known: false });
    assert_eq!(s.module_signing, SummaryCheck { ok: false, known: false });
    assert_eq!(s.kallsyms, SummaryCheck { ok: false, known: true });
    assert!(!s.module_development);
    assert!(!s.symbol_analysis);
    assert!(!s.live_patching);
}

#[test]
fn live_patching_needs_headers() {
    let mut f = facts();
    f.headers_available = false;
    let s = capability_summary(Some(CONFIG), f);
    assert_eq!(s.modules, SummaryCheck { ok: false, known: true });
    assert_eq!(s.livepatch, SummaryCheck { ok: false, known: true });
    assert!(!s.live_patching);
    assert!(s.symbol_analysis);
}

#[test]
fn kernel_probes_descriptor_count() {
    let probes = all_probes();
    assert_eq!(probes.len(), 7);
    let names: Vec<&str> = probes.iter().map(|p| p.name()).collect();
    assert_eq!(
        names,
        vec!["version", "symbols", "kallsyms", "btf", "modules", "tracing", "architecture"]
    );
    let dyns: Vec<&dyn Probe> = probes.iter().map(|p| p as &dyn Probe).collect();
    assert_eq!(total_descriptors(&dyns), 33);
    let counted: usize = probes.iter().map(|p| p.discover().len()).sum();
    assert_eq!(counted, 33);
    assert_eq!(total_descriptors(&[]), 0);
    let arch = ArchitectureProbe.discover();
    assert_eq!(arch.len(), 4);
    assert_eq!(arch[0].key, "arch.name");
    assert_eq!(arch[0].value, "x86_64");
}

#[test]
fn dummy_target_values() {
    assert_eq!(zenvecha_dummy_func(), 42);
    assert_eq!(zenvecha_dummy_patched(), 99);
    assert!(!verify_patch());
    let info = DummyTargetInfo::new(0x1000);
    assert_eq!(info.name, "zenvecha_dummy_func");
    assert_eq!(info.address, 0x1000);
    assert_eq!(info.original_value, 42);
    assert_eq!(info.patched_value, 99);
    assert!(!info.is_patched);
}

#[test]
fn executor_reports_the_redirect() {
    let r = LivepatchExecutor::apply("zenvecha_dummy_func", 0x10, 0x20);
    assert!(r.success);
    assert_eq!(r.symbol_name, "zenvecha_dummy_func");
    assert_eq!(r.old_address, 0x10);
    assert_eq!(r.new_address, 0x20);
    assert!(r.error.is_none());
    assert!(LivepatchExecutor::verify(0x10, 0x20));
}
