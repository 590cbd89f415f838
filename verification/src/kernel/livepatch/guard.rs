//! Livepatch safety guards: check before acting, return errors instead
//! of panicking, isolate the dangerous step, recover to a structured error.
//!
//! Module init runs [`preflight_checks`]; every patch request runs
//! [`validate_target`] and [`guarded_stop_machine`]; module unload runs
//! [`require_no_active_patches`].
use crate::text::{concat2, concat3, decimal, owned, u64_to_string};
use vstd::prelude::*;

verus! {

/// Result of the pre-flight checks.
#[derive(Clone, Debug)]
pub struct PreflightResult {
    /// No failure is fatal.
    pub ok: bool,
    /// The failures (empty when all checks pass).
    pub failures: Vec<PreflightFailure>,
}

#[derive(Clone, Debug)]
pub struct PreflightFailure {
    /// Which check failed.
    pub check: &'static str,
    /// Why it failed.
    pub reason: String,
    /// Whether the module must abort loading.
    pub fatal: bool,
}

/// No failure in `fs` is fatal.
pub open spec fn none_fatal(fs: Seq<PreflightFailure>) -> bool {
    forall|i: int| 0 <= i < fs.len() ==> !(#[trigger] fs[i]).fatal
}

fn all_non_fatal(failures: &Vec<PreflightFailure>) -> (r: bool)
    ensures
        r == none_fatal(failures@),
{
    let mut i: usize = 0;
    while i < failures.len()
        invariant
            i <= failures@.len(),
            forall|j: int| 0 <= j < i ==> !(#[trigger] failures@[j]).fatal,
        decreases failures@.len() - i,
    {
        if failures[i].fatal {
            return false;
        }
        i += 1;
    }
    true
}

/// Every option this skeleton checks reads as enabled.
fn check_config(name: &str, required: bool, failures: &mut Vec<PreflightFailure>)
    ensures
        final(failures)@ == old(failures)@,
{
    let enabled = true;
    if required && !enabled {
        failures.push(
            PreflightFailure {
                check: "CONFIG_LIVEPATCH",
                reason: concat3("CONFIG_", name, " is not enabled in this kernel"),
                fatal: true,
            },
        );
    }
}

/// Containers that block kernel code modification would be reported
/// here; this skeleton assumes a safe environment.
fn check_container_safety(failures: &mut Vec<PreflightFailure>)
    ensures
        final(failures)@ == old(failures)@,
{
}

/// The kernel lockdown state.
#[derive(Clone, Copy, Debug, PartialEq, Eq, Structural)]
pub enum LockdownMode {
    NoLockdown,
    Integrity,
    Confidentiality,
}

/// What the lockdown state means for livepatch: confidentiality mode blocks
/// it (fatal), integrity mode may restrict some patches (a warning).
pub fn lockdown_failure(mode: LockdownMode) -> (r: Option<PreflightFailure>)
    ensures
        match mode {
            LockdownMode::NoLockdown => r is None,
            LockdownMode::Integrity => r matches Some(f) && f.check@ == "kernel_lockdown"@
                && f.reason@ == "Kernel lockdown is in integrity mode — some patches may be restricted"@
                && !f.fatal,
            LockdownMode::Confidentiality => r matches Some(f) && f.check@ == "kernel_lockdown"@
                && f.reason@ == "Kernel lockdown is in confidentiality mode"@ && f.fatal,
        },
{
    match mode {
        LockdownMode::NoLockdown => None,
        LockdownMode::Integrity => Some(
            PreflightFailure {
                check: "kernel_lockdown",
                reason: owned("Kernel lockdown is in integrity mode — some patches may be restricted"),
                fatal: false,
            },
        ),
        LockdownMode::Confidentiality => Some(
            PreflightFailure {
                check: "kernel_lockdown",
                reason: owned("Kernel lockdown is in confidentiality mode"),
                fatal: true,
            },
        ),
    }
}

/// Reports the lockdown state; this skeleton reads no lockdown.
fn check_lockdown_mode(failures: &mut Vec<PreflightFailure>)
    ensures
        final(failures)@ == old(failures)@,
{
    match lockdown_failure(LockdownMode::NoLockdown) {
        Some(f) => failures.push(f),
        None => {},
    }
}

/// Runs all pre-flight checks at module init; the module must refuse to
/// load when any failure is fatal.
pub fn preflight_checks() -> (r: PreflightResult)
    ensures
        r.ok == none_fatal(r.failures@),
        r.failures@.len() == 0,
        r.ok,
{
    let mut failures: Vec<PreflightFailure> = Vec::new();
    check_config("LIVEPATCH", true, &mut failures);
    check_config("FUNCTION_TRACER", true, &mut failures);
    check_config("MODULES", true, &mut failures);
    check_container_safety(&mut failures);
    check_lockdown_mode(&mut failures);
    let ok = all_non_fatal(&failures);
    PreflightResult { ok, failures }
}

/// What the kernel knows of a patch target.
#[derive(Clone, Copy, Debug, PartialEq, Eq, Structural)]
pub struct TargetFacts {
    /// The symbol is in kallsyms.
    pub found: bool,
    /// It lies in the `.text` section (only code can be patched).
    pub in_text: bool,
    /// It is patched already.
    pub already_patched: bool,
    /// It is marked NOTRACE or NOKPROBE.
    pub blacklisted: bool,
}

/// The answer for a patch target, checked in order: unknown symbol, not
/// code, already patched, blacklisted.
pub open spec fn spec_target_check(name: Seq<char>, facts: TargetFacts) -> Result<(), Seq<char>> {
    if !facts.found {
        Err("Symbol '"@ + name + "' not found in kallsyms"@)
    } else if !facts.in_text {
        Err("Symbol '"@ + name + "' is not in .text section"@)
    } else if facts.already_patched {
        Err("Symbol '"@ + name + "' is already patched"@)
    } else if facts.blacklisted {
        Err("Symbol '"@ + name + "' is marked NOTRACE/NOKPROBE"@)
    } else {
        Ok(())
    }
}

pub fn target_check(symbol_name: &str, facts: TargetFacts) -> (r: Result<(), String>)
    ensures
        match spec_target_check(symbol_name@, facts) {
            Ok(()) => r is Ok,
            Err(m) => r matches Err(e) && e@ == m,
        },
{
    if !facts.found {
        Err(concat3("Symbol '", symbol_name, "' not found in kallsyms"))
    } else if !facts.in_text {
        Err(concat3("Symbol '", symbol_name, "' is not in .text section"))
    } else if facts.already_patched {
        Err(concat3("Symbol '", symbol_name, "' is already patched"))
    } else if facts.blacklisted {
        Err(concat3("Symbol '", symbol_name, "' is marked NOTRACE/NOKPROBE"))
    } else {
        Ok(())
    }
}

/// Validates a patch target before it is applied; this skeleton finds
/// every symbol in kallsyms, in `.text`, unpatched and not blacklisted.
pub fn validate_target(symbol_name: &str, _target_address: usize) -> (r: Result<(), String>)
    ensures
        r is Ok,
{
    target_check(
        symbol_name,
        TargetFacts { found: true, in_text: true, already_patched: false, blacklisted: false },
    )
}

/// Result of a guarded atomic operation.
pub struct GuardedExecResult {
    pub success: bool,
    pub error: Option<String>,
    /// The pre-patch state, kept for rollback.
    pub saved_state: Option<SavedPatchState>,
}

/// State saved before a patch.
pub struct SavedPatchState {
    pub symbol_name: String,
    pub old_address: usize,
    pub old_handler: usize,
}

/// A signed number in decimal.
pub open spec fn signed_decimal(n: int) -> Seq<char> {
    if n < 0 {
        "-"@ + decimal((-n) as nat)
    } else {
        decimal(n as nat)
    }
}

fn i32_to_string(n: i32) -> (r: String)
    ensures
        r@ == signed_decimal(n as int),
{
    if n < 0 {
        let m: u64 = (-(n as i64)) as u64;
        let digits = u64_to_string(m);
        concat2("-", digits.as_str())
    } else {
        u64_to_string(n as u64)
    }
}

/// The outcome of the guarded stop_machine step, from what the kernel
/// reported: whether the text mutex was taken, the stop_machine result (0
/// on success), and the handler read back at the target afterwards. The
/// pre-patch state is kept whenever stop_machine ran.
pub fn stop_machine_outcome(
    symbol_name: &str,
    old_address: usize,
    new_address: usize,
    old_handler: usize,
    mutex_taken: bool,
    stop_result: i32,
    handler_after: usize,
) -> (r: GuardedExecResult)
    ensures
        !mutex_taken ==> (!r.success && r.saved_state is None && (r.error matches Some(e) && e@
            == "Failed to acquire text_mutex"@)),
        mutex_taken && stop_result != 0 ==> (!r.success && r.saved_state is None && (
        r.error matches Some(e) && e@ == "stop_machine failed with error "@ + signed_decimal(
            stop_result as int,
        ))),
        mutex_taken && stop_result == 0 ==> (r.saved_state matches Some(s) && s.symbol_name@
            == symbol_name@ && s.old_address == old_address && s.old_handler == old_handler),
        mutex_taken && stop_result == 0 && handler_after == new_address ==> (r.success
            && r.error is None),
        mutex_taken && stop_result == 0 && handler_after != new_address ==> (!r.success && (
        r.error matches Some(e) && e@ == "Handler mismatch: expected "@ + decimal(
            new_address as nat,
        ) + ", got "@ + decimal(handler_after as nat))),
{
    if !mutex_taken {
        return GuardedExecResult {
            success: false,
            error: Some(owned("Failed to acquire text_mutex")),
            saved_state: None,
        };
    }
    if stop_result != 0 {
        let code = i32_to_string(stop_result);
        return GuardedExecResult {
            success: false,
            error: Some(concat2("stop_machine failed with error ", code.as_str())),
            saved_state: None,
        };
    }
    let saved = SavedPatchState { symbol_name: owned(symbol_name), old_address, old_handler };
    if handler_after == new_address {
        GuardedExecResult { success: true, error: None, saved_state: Some(saved) }
    } else {
        let expected = u64_to_string(new_address as u64);
        let actual = u64_to_string(handler_after as u64);
        let head = concat3("Handler mismatch: expected ", expected.as_str(), ", got ");
        GuardedExecResult {
            success: false,
            error: Some(concat2(head.as_str(), actual.as_str())),
            saved_state: Some(saved),
        }
    }
}

/// Executes the guarded stop_machine step and keeps the pre-patch state
/// for rollback; this skeleton takes the mutex, stop_machine succeeds and
/// the new handler is in place.
pub fn guarded_stop_machine(symbol_name: &str, old_address: usize, new_address: usize) -> (r:
    GuardedExecResult)
    ensures
        r.success,
        r.error is None,
        r.saved_state matches Some(s) && s.symbol_name@ == symbol_name@ && s.old_address
            == old_address && s.old_handler == old_address,
{
    stop_machine_outcome(symbol_name, old_address, new_address, old_address, true, 0, new_address)
}

/// Whether unloading may proceed: refused, with the list of active patches, while any
/// patch is active.
pub fn unload_check(active: Vec<String>) -> (r: Result<(), Vec<String>>)
    ensures
        active@.len() == 0 ==> r is Ok,
        active@.len() > 0 ==> (r matches Err(a) && a@ == active@),
{
    if active.len() == 0 {
        Ok(())
    } else {
        Err(active)
    }
}

/// Whether the module can be unloaded: no patch may be active; this
/// skeleton has none active.
pub fn require_no_active_patches() -> (r: Result<(), Vec<String>>)
    ensures
        r is Ok,
{
    unload_check(Vec::new())
}

} // verus!
