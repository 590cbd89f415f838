use lib::capability::{register_all, Capability, KnownCapability, Registry};
use lib::caps::config::{ConfigModules, ConfigRust, ConfigSource};
use lib::caps::fs::{DebugfsMounted, TracefsMounted};
use lib::caps::kernel::KernelRelease;
use lib::caps::kernel_cap::security::{KernelKaslr, KernelLockdown};
use lib::caps::kernel_cap::{kernel_bool, kernel_status, kernel_text, read_proc};
use lib::caps::symbols::{KallsymsInfo, SymbolCount, VmlinuxInfo};
use lib::caps::kernel_cap::symbols::{KernelSymbolCollection, KernelSymbolTotal};
use lib::evidence::{EvidenceValue, ProbeStatus};
use lib::kconfig::ConfigValue;
use lib::snapshot::{
    AbiFacts, CompilerCompat, HeaderStatus, KallsymsState, KernelConfig, LoaderInfo, ProcEntry,
    SystemSnapshot, VmlinuxFile,
};

fn bare_system() -> SystemSnapshot {
    SystemSnapshot {
        kernel_release: None,
        architecture: None,
        distro: None,
        compiler_version: None,
        compiler_available: false,
        kernel_compiler: None,
        gcc_compat: CompilerCompat::Unknown,
        config: None,
        headers_available: false,
        signing_enabled: None,
        loader: LoaderInfo {
            loaded_count: 0,
            signed_supported: false,
            compression: "none".to_string(),
            livepatch_enabled: false,
        },
        kallsyms: KallsymsState { exists: false, readable: false, root_only: false },
        symbol_count: None,
        vmlinux: None,
        module_symvers_path: None,
        btf_available: false,
        dwarf_available: false,
        abi: AbiFacts {
            utsrelease: None,
            vermagic: None,
            module_layout_version: None,
            module_compression: "none".to_string(),
        },
        rustc: None,
        bindgen: None,
        llvm_version: None,
        make_available: false,
        header_status: HeaderStatus::Missing,
        build_dir: None,
        source_dir: None,
        compile_commands: false,
        mounts: String::new(),
        module_dir_present: false,
        proc_entries: Vec::new(),
    }
}

fn rich_system() -> SystemSnapshot {
    let mut sys = bare_system();
    sys.kernel_release = Some("6.9.1-arch1-1".to_string());
    sys.config = Some(KernelConfig {
        text: "CONFIG_MODULES=y\n# CONFIG_RUST is not set\n".to_string(),
        source: "/proc/config.gz".to_string(),
    });
    sys.kallsyms = KallsymsState { exists: true, readable: true, root_only: true };
    sys.symbol_count = Some(123456);
    sys.vmlinux = Some(VmlinuxFile {
        path: "/sys/kernel/btf/vmlinux".to_string(),
        size: Some(5 * 1048576),
        build_id: Some("abc123".to_string()),
    });
    sys.mounts = "debugfs /sys/kernel/debug debugfs rw 0 0\n".to_string();
    sys.module_dir_present = true;
    sys.proc_entries = vec![
        ProcEntry { key: "security.lockdown".to_string(), content: " integrity \n".to_string() },
        ProcEntry { key: "security.kaslr".to_string(), content: "yes\n".to_string() },
    ];
    sys
}

#[test]
fn kernel_release_present_or_missing() {
    let e = KernelRelease.probe(&rich_system());
    assert_eq!(e.id, "kernel.release");
    assert_eq!(e.status, ProbeStatus::Present);
    assert_eq!(e.value.display(), "6.9.1-arch1-1");
    let e = KernelRelease.probe(&bare_system());
    assert_eq!(e.status, ProbeStatus::Missing);
    assert_eq!(e.value.display(), "Unknown");
}

#[test]
fn config_capabilities_read_the_config_text() {
    let sys = rich_system();
    let e = ConfigModules.probe(&sys);
    assert!(matches!(e.value, EvidenceValue::Config(ConfigValue::Yes)));
    assert_eq!(e.status, ProbeStatus::Present);
    let e = ConfigRust.probe(&sys);
    assert!(matches!(e.value, EvidenceValue::Config(ConfigValue::No)));
    assert_eq!(ConfigSource.probe(&sys).value.display(), "/proc/config.gz");
    let e = ConfigModules.probe(&bare_system());
    assert!(matches!(e.value, EvidenceValue::Config(ConfigValue::Missing)));
    assert_eq!(e.status, ProbeStatus::Missing);
}

#[test]
fn mounts_and_symbols() {
    let sys = rich_system();
    assert!(matches!(DebugfsMounted.probe(&sys).value, EvidenceValue::Bool(true)));
    assert!(matches!(TracefsMounted.probe(&sys).value, EvidenceValue::Bool(false)));
    assert!(matches!(KallsymsInfo.probe(&sys).value, EvidenceValue::Status("readable (root)")));
    let mut denied = bare_system();
    denied.kallsyms = KallsymsState { exists: true, readable: false, root_only: false };
    assert!(matches!(KallsymsInfo.probe(&denied).value, EvidenceValue::Status("permission denied")));
    assert!(matches!(KallsymsInfo.probe(&bare_system()).value, EvidenceValue::Status("hidden")));
    assert!(matches!(SymbolCount.probe(&bare_system()).value, EvidenceValue::Count(0)));
    assert_eq!(
        VmlinuxInfo.probe(&sys).value.display(),
        "/sys/kernel/btf/vmlinux (5.0 MB) BuildID=abc123"
    );
    assert_eq!(VmlinuxInfo.probe(&bare_system()).status, ProbeStatus::Missing);
}

#[test]
fn module_entries_are_trimmed() {
    let sys = rich_system();
    assert_eq!(read_proc(&sys, "security.lockdown"), Some("integrity".to_string()));
    assert_eq!(read_proc(&sys, "nothing"), None);
    assert_eq!(KernelLockdown.probe(&sys).value.display(), "integrity");
    assert!(matches!(KernelKaslr.probe(&sys).value, EvidenceValue::Bool(true)));
    assert!(matches!(KernelKaslr.probe(&bare_system()).value, EvidenceValue::Bool(false)));
    assert_eq!(kernel_text(&bare_system(), "kernel.x", "x").status, ProbeStatus::Missing);
    assert!(matches!(kernel_status(&sys, "kernel.y", "security.kaslr").value, EvidenceValue::Bool(true)));
    assert!(matches!(kernel_bool(&sys, "kernel.z", "security.lockdown").value, EvidenceValue::Bool(false)));
}

#[test]
fn registry_runs_in_registration_order() {
    let mut reg: Registry<KnownCapability> = Registry::new();
    register_all(&mut reg);
    let sys = rich_system();
    let all = reg.run_all(&sys);
    assert_eq!(all.len(), 63);
    assert_eq!(all[0].id, "kernel.release");
    assert_eq!(all[62].id, "kernel.tracepoints.subsystems");
    let symbol_ids: Vec<&str> = all[38..49].iter().map(|e| e.id).collect();
    assert_eq!(
        symbol_ids,
        vec![
            "kernel.symbols.total",
            "kernel.symbols.exported",
            "kernel.symbols.gpl_only",
            "kernel.symbols.internal",
            "kernel.symbols.module_owned",
            "kernel.symbols.vmlinux",
            "kernel.symbols.namespaced",
            "kernel.symbols.kallsyms",
            "kernel.symbols.kallsyms_all",
            "kernel.symbols.kptr_restrict",
            "kernel.symbols.collection",
        ]
    );
    assert_eq!(all[36].id, "kernel.module_loaded");
    assert_eq!(all[37].id, "kernel.version.module");
    assert_eq!(all[49].id, "kernel.btf.module");
    let config = reg.run("config.", &sys);
    let ids: Vec<&str> = config.iter().map(|e| e.id).collect();
    assert_eq!(
        ids,
        vec![
            "config.source",
            "config.MODULES",
            "config.MODULE_SIG",
            "config.KALLSYMS",
            "config.KALLSYMS_ALL",
            "config.BPF",
            "config.DEBUG_INFO_BTF",
            "config.RUST",
            "config.RUST_IS_AVAILABLE",
            "config.LIVEPATCH",
        ]
    );
    // The empty prefix selects every capability.
    assert_eq!(reg.run("", &sys).len(), all.len());
    assert!(reg.run("nothing.", &sys).is_empty());
}

#[test]
fn registry_get_finds_by_exact_id() {
    let reg: Registry<KnownCapability> = Registry::default();
    assert_eq!(reg.get("fs.tracefs").map(|c| c.id()), Some("fs.tracefs"));
    assert_eq!(reg.get("fs.tracefs").map(|c| c.label()), Some("tracefs"));
    assert!(reg.get("fs.").is_none());
    let empty: Registry<KnownCapability> = Registry::new();
    assert!(empty.get("kernel.release").is_none());
    assert!(empty.run_all(&bare_system()).is_empty());
}

#[test]
fn register_appends() {
    let mut reg: Registry<KnownCapability> = Registry::new();
    reg.register(KnownCapability::DebugfsMounted(DebugfsMounted));
    reg.register(KnownCapability::KernelRelease(KernelRelease));
    let ev = reg.run_all(&rich_system());
    let ids: Vec<&str> = ev.iter().map(|e| e.id).collect();
    assert_eq!(ids, vec!["fs.debugfs", "kernel.release"]);
}

#[test]
fn symbol_discovery_entries_read_as_text() {
    let mut sys = bare_system();
    sys.proc_entries = vec![
        ProcEntry { key: "symbols.total".to_string(), content: "84721\n".to_string() },
        ProcEntry { key: "symbols.collection_status".to_string(), content: "complete\n".to_string() },
    ];
    let e = KernelSymbolTotal.probe(&sys);
    assert_eq!(e.id, "kernel.symbols.total");
    assert_eq!(e.status, ProbeStatus::Present);
    assert_eq!(e.value.display(), "84721");
    assert_eq!(KernelSymbolCollection.probe(&sys).value.display(), "complete");
    assert_eq!(KernelSymbolTotal.probe(&bare_system()).status, ProbeStatus::Missing);
}
