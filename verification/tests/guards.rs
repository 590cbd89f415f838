use lib::kernel::livepatch::guard::{
    guarded_stop_machine, lockdown_failure, preflight_checks, require_no_active_patches,
    stop_machine_outcome, target_check, unload_check, validate_target, LockdownMode, TargetFacts,
};

fn good_facts() -> TargetFacts {
    TargetFacts { found: true, in_text: true, already_patched: false, blacklisted: false }
}

#[test]
fn preflight_passes_with_no_failures() {
    let r = preflight_checks();
    assert!(r.ok);
    assert!(r.failures.is_empty());
}

#[test]
fn lockdown_modes_map_to_failures() {
    assert!(lockdown_failure(LockdownMode::NoLockdown).is_none());
    let integrity = lockdown_failure(LockdownMode::Integrity).unwrap();
    assert_eq!(integrity.check, "kernel_lockdown");
    assert!(!integrity.fatal);
    assert_eq!(
        integrity.reason,
        "Kernel lockdown is in integrity mode — some patches may be restricted"
    );
    let confidentiality = lockdown_failure(LockdownMode::Confidentiality).unwrap();
    assert_eq!(confidentiality.check, "kernel_lockdown");
    assert!(confidentiality.fatal);
    assert_eq!(confidentiality.reason, "Kernel lockdown is in confidentiality mode");
}

#[test]
fn target_check_reports_first_failing_fact() {
    assert_eq!(target_check("do_fork", good_facts()), Ok(()));
    let mut f = good_facts();
    f.found = false;
    f.blacklisted = true;
    assert_eq!(
        target_check("do_fork", f),
        Err("Symbol 'do_fork' not found in kallsyms".to_string())
    );
    let mut f = good_facts();
    f.in_text = false;
    assert_eq!(
        target_check("jiffies", f),
        Err("Symbol 'jiffies' is not in .text section".to_string())
    );
    let mut f = good_facts();
    f.already_patched = true;
    assert_eq!(
        target_check("vfs_read", f),
        Err("Symbol 'vfs_read' is already patched".to_string())
    );
    let mut f = good_facts();
    f.blacklisted = true;
    assert_eq!(
        target_check("do_nmi", f),
        Err("Symbol 'do_nmi' is marked NOTRACE/NOKPROBE".to_string())
    );
}

#[test]
fn validate_target_accepts_symbol() {
    assert_eq!(validate_target("zenvecha_dummy_func", 0x1000), Ok(()));
}

#[test]
fn stop_machine_outcome_covers_each_path() {
    let r = stop_machine_outcome("f", 10, 20, 10, false, 0, 20);
    assert!(!r.success);
    assert_eq!(r.error.as_deref(), Some("Failed to acquire text_mutex"));
    assert!(r.saved_state.is_none());

    let r = stop_machine_outcome("f", 10, 20, 10, true, -5, 20);
    assert!(!r.success);
    assert_eq!(r.error.as_deref(), Some("stop_machine failed with error -5"));
    assert!(r.saved_state.is_none());

    let r = stop_machine_outcome("f", 10, 20, 11, true, 0, 20);
    assert!(r.success);
    assert!(r.error.is_none());
    let s = r.saved_state.unwrap();
    assert_eq!(s.symbol_name, "f");
    assert_eq!(s.old_address, 10);
    assert_eq!(s.old_handler, 11);

    let r = stop_machine_outcome("f", 10, 20, 11, true, 0, 7);
    assert!(!r.success);
    assert_eq!(r.error.as_deref(), Some("Handler mismatch: expected 20, got 7"));
    assert!(r.saved_state.is_some());
}

#[test]
fn guarded_stop_machine_saves_state() {
    let r = guarded_stop_machine("zenvecha_dummy_func", 4096, 8192);
    assert!(r.success);
    assert!(r.error.is_none());
    let s = r.saved_state.unwrap();
    assert_eq!(s.symbol_name, "zenvecha_dummy_func");
    assert_eq!(s.old_address, 4096);
    assert_eq!(s.old_handler, 4096);
}

#[test]
fn unload_refused_while_patches_active() {
    assert_eq!(unload_check(Vec::new()), Ok(()));
    let active = vec!["a".to_string(), "b".to_string()];
    assert_eq!(unload_check(active.clone()), Err(active));
    assert_eq!(require_no_active_patches(), Ok(()));
}
