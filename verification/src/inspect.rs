//! The lines of the inspection report and its capability summary.
use crate::kconfig::{config_is_set, config_val_label, spec_config_is_set, spec_config_val_label};
use crate::text::{concat2, concat3, owned};
use vstd::prelude::*;

verus! {

/// `label : text`, the shape of every key/value line of the report.
pub open spec fn kv(label: Seq<char>, text: Seq<char>) -> Seq<char> {
    label + " : "@ + text
}

/// A key with an optional value; a missing or empty value reads "Unknown".
pub fn kv_line(label: &str, value: Option<&str>) -> (r: String)
    ensures
        r@ == kv(
            label@,
            match value {
                Some(v) => if v@.len() > 0 {
                    v@
                } else {
                    "Unknown"@
                },
                None => "Unknown"@,
            },
        ),
{
    let text = match value {
        Some(v) => if v.unicode_len() > 0 {
            v
        } else {
            "Unknown"
        },
        None => "Unknown",
    };
    concat3(label, " : ", text)
}

/// A presence flag: "present" or "not present".
pub fn bool_line(label: &str, val: bool) -> (r: String)
    ensures
        r@ == kv(label@, if val { "present"@ } else { "not present"@ }),
{
    concat3(label, " : ", if val { "present" } else { "not present" })
}

/// A flag that may be unknown: "enabled", "disabled" or "Unknown".
pub fn bool_opt_line(label: &str, val: Option<bool>) -> (r: String)
    ensures
        r@ == kv(
            label@,
            match val {
                Some(true) => "enabled"@,
                Some(false) => "disabled"@,
                None => "Unknown"@,
            },
        ),
{
    let text = match val {
        Some(true) => "enabled",
        Some(false) => "disabled",
        None => "Unknown",
    };
    concat3(label, " : ", text)
}

/// The three states of a summary check.
#[derive(Clone, Copy, Debug, PartialEq, Eq, Structural)]
pub enum CheckMark {
    Available,
    Unavailable,
    Unknown,
}

impl CheckMark {
    pub open spec fn spec_symbol(self) -> Seq<char> {
        match self {
            CheckMark::Available => "✔"@,
            CheckMark::Unavailable => "✘"@,
            CheckMark::Unknown => "?"@,
        }
    }

    /// The symbol printed in front of a check.
    pub fn symbol(self) -> (r: &'static str)
        ensures
            r@ == self.spec_symbol(),
    {
        match self {
            CheckMark::Available => "✔",
            CheckMark::Unavailable => "✘",
            CheckMark::Unknown => "?",
        }
    }
}

/// Unknown wins over the result of the check.
pub open spec fn spec_tri_state(ok: bool, known: bool) -> CheckMark {
    if !known {
        CheckMark::Unknown
    } else if ok {
        CheckMark::Available
    } else {
        CheckMark::Unavailable
    }
}

pub fn tri_state(ok: bool, known: bool) -> (r: CheckMark)
    ensures
        r == spec_tri_state(ok, known),
{
    if !known {
        CheckMark::Unknown
    } else if ok {
        CheckMark::Available
    } else {
        CheckMark::Unavailable
    }
}

/// `  <mark> <label>` for a check that may be unknown.
pub fn tri_check_line(label: &str, ok: bool, known: bool) -> (r: String)
    ensures
        r@ == "  "@ + spec_tri_state(ok, known).spec_symbol() + " "@ + label@,
{
    let mark = tri_state(ok, known).symbol();
    let head = concat3("  ", mark, " ");
    concat2(head.as_str(), label)
}

/// `  ✔ <label>` or `  ✘ <label>`.
pub fn check_line(label: &str, ok: bool) -> (r: String)
    ensures
        r@ == "  "@ + (if ok { "✔"@ } else { "✘"@ }) + " "@ + label@,
{
    let mark = if ok { "✔" } else { "✘" };
    let head = concat3("  ", mark, " ");
    concat2(head.as_str(), label)
}

/// `s` filled with dots on the right up to `width` characters; a longer
/// `s` is kept whole.
pub open spec fn dot_padded(s: Seq<char>, width: nat) -> Seq<char> {
    if s.len() >= width {
        s
    } else {
        s + Seq::new((width - s.len()) as nat, |i: int| '.')
    }
}

pub fn dot_pad(s: &str, width: usize) -> (r: String)
    ensures
        r@ == dot_padded(s@, width as nat),
{
    let mut out = owned(s);
    let mut len = s.unicode_len();
    while len < width
        invariant
            s@.len() <= len <= width || (len == s@.len() && len >= width),
            out@.len() == len,
            out@.subrange(0, s@.len() as int) == s@,
            forall|i: int| s@.len() <= i < len ==> out@[i] == '.',
        decreases width - len,
    {
        proof {
            reveal_strlit(".");
        }
        out.append(".");
        len += 1;
    }
    assert(out@ =~= dot_padded(s@, width as nat));
    out
}

/// The configuration row of the report for option `key`: its name padded
/// with dots to 36 characters, then the build label, "not set" or "Unknown".
pub open spec fn spec_config_row(config_text: Option<Seq<char>>, key: Seq<char>) -> Seq<char> {
    let name = dot_padded("  CONFIG_"@ + key, 36);
    let state = match config_text {
        Some(t) => spec_config_is_set(t, key),
        None => None,
    };
    "  "@ + name + " "@ + match state {
        Some(true) => spec_config_val_label(config_text, key),
        Some(false) => "not set"@,
        None => "Unknown"@,
    }
}

pub fn config_row(config_text: Option<&str>, key: &str) -> (r: String)
    ensures
        r@ == spec_config_row(
            match config_text {
                Some(t) => Some(t@),
                None => None,
            },
            key@,
        ),
{
    let label = concat2("  CONFIG_", key);
    let name = dot_pad(label.as_str(), 36);
    let state = match config_text {
        Some(t) => config_is_set(t, key),
        None => None,
    };
    let text = match state {
        Some(true) => config_val_label(config_text, key),
        Some(false) => "not set",
        None => "Unknown",
    };
    let head = concat3("  ", name.as_str(), " ");
    concat2(head.as_str(), text)
}

/// The kallsyms line of the symbol section.
pub open spec fn spec_kallsyms_line(exists: bool, readable: bool, root_only: bool) -> Seq<char> {
    if !exists {
        "  /proc/kallsyms : not found"@
    } else if !readable {
        "  /proc/kallsyms : present, permission denied"@
    } else if root_only {
        "  /proc/kallsyms : present, readable (root only)"@
    } else {
        "  /proc/kallsyms : present, readable"@
    }
}

pub fn kallsyms_line(exists: bool, readable: bool, root_only: bool) -> (r: String)
    ensures
        r@ == spec_kallsyms_line(exists, readable, root_only),
{
    if !exists {
        owned("  /proc/kallsyms : not found")
    } else if !readable {
        owned("  /proc/kallsyms : present, permission denied")
    } else if root_only {
        owned("  /proc/kallsyms : present, readable (root only)")
    } else {
        owned("  /proc/kallsyms : present, readable")
    }
}

/// One check of the capability summary.
#[derive(Clone, Copy, Debug, PartialEq, Eq, Structural)]
pub struct SummaryCheck {
    pub ok: bool,
    pub known: bool,
}

/// The "Kernel Capability Summary" and "Suitable for" sections.
#[derive(Clone, Copy, Debug, PartialEq, Eq, Structural)]
pub struct CapabilitySummary {
    pub rust_for_linux: SummaryCheck,
    pub modules: SummaryCheck,
    pub module_signing: SummaryCheck,
    pub btf: SummaryCheck,
    pub livepatch: SummaryCheck,
    pub kallsyms: SummaryCheck,
    pub module_development: bool,
    pub symbol_analysis: bool,
    pub live_patching: bool,
}

/// What was found on the system, as the summary reads it.
#[derive(Clone, Copy, Debug, PartialEq, Eq, Structural)]
pub struct InspectFacts {
    pub headers_available: bool,
    pub signing_enabled: Option<bool>,
    pub btf_available: bool,
    pub kallsyms_exists: bool,
    pub kallsyms_readable: bool,
    pub compiler_available: bool,
}

/// `spec_config_is_set` over an optional configuration text.
pub open spec fn cfg_state(config_text: Option<Seq<char>>, key: Seq<char>) -> Option<bool> {
    match config_text {
        Some(t) => spec_config_is_set(t, key),
        None => None,
    }
}

pub open spec fn spec_capability_summary(
    config_text: Option<Seq<char>>,
    facts: InspectFacts,
) -> CapabilitySummary {
    let rust = cfg_state(config_text, "RUST"@);
    let rust_avail = cfg_state(config_text, "RUST_IS_AVAILABLE"@);
    let modules = cfg_state(config_text, "MODULES"@);
    let btf = cfg_state(config_text, "DEBUG_INFO_BTF"@);
    let livepatch = cfg_state(config_text, "LIVEPATCH"@);
    let modules_ok = modules == Some(true) && facts.headers_available;
    let livepatch_ok = livepatch == Some(true) && modules_ok;
    let ks_ok = facts.kallsyms_exists && facts.kallsyms_readable;
    CapabilitySummary {
        rust_for_linux: SummaryCheck {
            ok: rust == Some(true) || rust_avail == Some(true),
            known: rust is Some || rust_avail is Some,
        },
        modules: SummaryCheck { ok: modules_ok, known: modules is Some },
        module_signing: SummaryCheck {
            ok: facts.signing_enabled == Some(true),
            known: facts.signing_enabled is Some,
        },
        btf: SummaryCheck { ok: btf == Some(true) && facts.btf_available, known: btf is Some },
        livepatch: SummaryCheck { ok: livepatch_ok, known: livepatch is Some },
        kallsyms: SummaryCheck { ok: ks_ok, known: facts.kallsyms_exists },
        module_development: modules_ok && facts.compiler_available,
        symbol_analysis: ks_ok,
        live_patching: livepatch_ok && ks_ok && modules_ok,
    }
}

/// BTF is reported usable only when the configuration enables
/// DEBUG_INFO_BTF and BTF data is present on the system; it is known
/// exactly when the configuration was read and says either way.
pub proof fn lemma_btf_needs_data(config_text: Option<Seq<char>>, facts: InspectFacts)
    ensures
        spec_capability_summary(config_text, facts).btf.ok ==> facts.btf_available,
        spec_capability_summary(config_text, facts).btf.ok == ((config_text matches Some(t)
            && spec_config_is_set(t, "DEBUG_INFO_BTF"@) == Some(true)) && facts.btf_available),
        spec_capability_summary(config_text, facts).btf.known == (config_text matches Some(t)
            && spec_config_is_set(t, "DEBUG_INFO_BTF"@) is Some),
{
}

/// What each summary check means: modules are usable when CONFIG_MODULES
/// is on and the headers are installed; livepatch when CONFIG_LIVEPATCH is
/// on and modules are usable; Rust when CONFIG_RUST or
/// CONFIG_RUST_IS_AVAILABLE is on; signing when module signing is on;
/// kallsyms when it exists and is readable. Module development further
/// needs a compiler, and live patching needs livepatch and readable
/// symbols.
pub proof fn lemma_summary_checks(config_text: Option<Seq<char>>, facts: InspectFacts)
    ensures
        spec_capability_summary(config_text, facts).modules.ok == ((config_text matches Some(t) && spec_config_is_set(t, "MODULES"@) == Some(true)) && facts.headers_available),
        spec_capability_summary(config_text, facts).livepatch.ok == ((config_text matches Some(t) && spec_config_is_set(t, "LIVEPATCH"@) == Some(true)) && (config_text matches Some(t) && spec_config_is_set(t, "MODULES"@) == Some(true))
            && facts.headers_available),
        spec_capability_summary(config_text, facts).rust_for_linux.ok == ((config_text matches Some(t) && spec_config_is_set(t, "RUST"@) == Some(true)) || (config_text matches Some(t) && spec_config_is_set(t, "RUST_IS_AVAILABLE"@) == Some(true))),
        spec_capability_summary(config_text, facts).module_signing.ok == (facts.signing_enabled == Some(true)),
        spec_capability_summary(config_text, facts).kallsyms.ok == (facts.kallsyms_exists && facts.kallsyms_readable),
        spec_capability_summary(config_text, facts).kallsyms.known == facts.kallsyms_exists,
        spec_capability_summary(config_text, facts).module_development == (spec_capability_summary(config_text, facts).modules.ok && facts.compiler_available),
        spec_capability_summary(config_text, facts).symbol_analysis == spec_capability_summary(config_text, facts).kallsyms.ok,
        spec_capability_summary(config_text, facts).live_patching == (spec_capability_summary(config_text, facts).livepatch.ok && spec_capability_summary(config_text, facts).kallsyms.ok),
{
}

fn cfg_state_of(config_text: Option<&str>, key: &str) -> (r: Option<bool>)
    ensures
        r == cfg_state(
            match config_text {
                Some(t) => Some(t@),
                None => None,
            },
            key@,
        ),
{
    match config_text {
        Some(t) => config_is_set(t, key),
        None => None,
    }
}

/// The capability summary of the inspection report: which kernel features
/// are usable, unusable or unknown, and what the system is suitable for.
pub fn capability_summary(config_text: Option<&str>, facts: InspectFacts) -> (r: CapabilitySummary)
    ensures
        r == spec_capability_summary(
            match config_text {
                Some(t) => Some(t@),
                None => None,
            },
            facts,
        ),
        r.btf.ok ==> facts.btf_available,
        r.btf.ok == ((config_text matches Some(t) && spec_config_is_set(t@, "DEBUG_INFO_BTF"@)
            == Some(true)) && facts.btf_available),
{
    proof {
        lemma_summary_checks(
            match config_text {
                Some(t) => Some(t@),
                None => None,
            },
            facts,
        );
        lemma_btf_needs_data(
            match config_text {
                Some(t) => Some(t@),
                None => None,
            },
            facts,
        );
    }
    let rust = cfg_state_of(config_text, "RUST");
    let rust_avail = cfg_state_of(config_text, "RUST_IS_AVAILABLE");
    let modules = cfg_state_of(config_text, "MODULES");
    let btf = cfg_state_of(config_text, "DEBUG_INFO_BTF");
    let livepatch = cfg_state_of(config_text, "LIVEPATCH");
    let modules_ok = modules == Some(true) && facts.headers_available;
    let livepatch_ok = livepatch == Some(true) && modules_ok;
    let ks_ok = facts.kallsyms_exists && facts.kallsyms_readable;
    CapabilitySummary {
        rust_for_linux: SummaryCheck {
            ok: rust == Some(true) || rust_avail == Some(true),
            known: rust.is_some() || rust_avail.is_some(),
        },
        modules: SummaryCheck { ok: modules_ok, known: modules.is_some() },
        module_signing: SummaryCheck {
            ok: facts.signing_enabled == Some(true),
            known: facts.signing_enabled.is_some(),
        },
        btf: SummaryCheck { ok: btf == Some(true) && facts.btf_available, known: btf.is_some() },
        livepatch: SummaryCheck { ok: livepatch_ok, known: livepatch.is_some() },
        kallsyms: SummaryCheck { ok: ks_ok, known: facts.kallsyms_exists },
        module_development: modules_ok && facts.compiler_available,
        symbol_analysis: ks_ok,
        live_patching: livepatch_ok && ks_ok && modules_ok,
    }
}

/// Live patching needs everything that module development needs except a
/// compiler, and readable kernel symbols besides.
pub proof fn lemma_live_patching_needs_modules_and_symbols(
    config_text: Option<Seq<char>>,
    facts: InspectFacts,
)
    ensures
        spec_capability_summary(config_text, facts).live_patching ==> {
            let s = spec_capability_summary(config_text, facts);
            s.modules.ok && s.symbol_analysis && s.livepatch.ok && s.kallsyms.ok
        },
        spec_capability_summary(config_text, facts).modules.ok ==> spec_capability_summary(
            config_text,
            facts,
        ).modules.known,
{
}

} // verus!
