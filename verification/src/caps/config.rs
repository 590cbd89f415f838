//! Kernel configuration capabilities: the config source and `CONFIG_*` values.
use crate::capability::{missing_view, present_view, Capability};
use crate::evidence::{Evidence, EvidenceValue, EvidenceView, ValueView};
use crate::snapshot::SystemSnapshot;
use crate::caps::{cfg_present, cfg_val, spec_cfg_val};
use crate::evidence::{Confidence, ProbeStatus};
use crate::kconfig::ConfigValue;
use vstd::prelude::*;

verus! {

/// The evidence of one configuration option: its value, present unless
/// the option is absent and no configuration could be read.
pub open spec fn config_option_view(sys: &SystemSnapshot, id: Seq<char>, key: Seq<char>) -> EvidenceView {
    let v = spec_cfg_val(sys, key);
    EvidenceView {
        id,
        status: if v == ConfigValue::Missing && !(sys.config is Some) {
            ProbeStatus::Missing
        } else {
            ProbeStatus::Present
        },
        confidence: Confidence::High,
        value: ValueView::Config(v),
    }
}

fn config_option(sys: &SystemSnapshot, id: &'static str, key: &str) -> (e: Evidence)
    ensures
        e@ == config_option_view(sys, id@, key@),
{
    let v = cfg_val(sys, key);
    let status = if v == ConfigValue::Missing && !cfg_present(sys) {
        ProbeStatus::Missing
    } else {
        ProbeStatus::Present
    };
    Evidence { id, status, confidence: Confidence::High, value: EvidenceValue::Config(v) }
}

/// Where the kernel configuration was read from.
pub struct ConfigSource;

impl Capability for ConfigSource {
    open spec fn spec_id(&self) -> Seq<char> {
        "config.source"@
    }

    open spec fn spec_label(&self) -> Seq<char> {
        "Config Source"@
    }

    open spec fn spec_probe(&self, sys: &SystemSnapshot) -> EvidenceView {
        match sys.config {
            Some(c) => present_view("config.source"@, ValueView::Text(Some(c.source@))),
            None => missing_view("config.source"@, ValueView::Text(None)),
        }
    }

    fn id(&self) -> &'static str {
        "config.source"
    }

    fn label(&self) -> &'static str {
        "Config Source"
    }

    fn probe(&self, sys: &SystemSnapshot) -> Evidence {
        match &sys.config {
            Some(c) => Evidence::present(self.id(), EvidenceValue::Text(Some(c.source.clone()))),
            None => Evidence::missing(self.id(), EvidenceValue::Text(None)),
        }
    }
}

/// `CONFIG_MODULES`.
pub struct ConfigModules;

impl Capability for ConfigModules {
    open spec fn spec_id(&self) -> Seq<char> {
        "config.MODULES"@
    }

    open spec fn spec_label(&self) -> Seq<char> {
        "CONFIG_MODULES"@
    }

    open spec fn spec_probe(&self, sys: &SystemSnapshot) -> EvidenceView {
        config_option_view(sys, "config.MODULES"@, "MODULES"@)
    }

    fn id(&self) -> &'static str {
        "config.MODULES"
    }

    fn label(&self) -> &'static str {
        "CONFIG_MODULES"
    }

    fn probe(&self, sys: &SystemSnapshot) -> Evidence {
        config_option(sys, self.id(), "MODULES")
    }
}

/// `CONFIG_MODULE_SIG`.
pub struct ConfigModuleSig;

impl Capability for ConfigModuleSig {
    open spec fn spec_id(&self) -> Seq<char> {
        "config.MODULE_SIG"@
    }

    open spec fn spec_label(&self) -> Seq<char> {
        "CONFIG_MODULE_SIG"@
    }

    open spec fn spec_probe(&self, sys: &SystemSnapshot) -> EvidenceView {
        config_option_view(sys, "config.MODULE_SIG"@, "MODULE_SIG"@)
    }

    fn id(&self) -> &'static str {
        "config.MODULE_SIG"
    }

    fn label(&self) -> &'static str {
        "CONFIG_MODULE_SIG"
    }

    fn probe(&self, sys: &SystemSnapshot) -> Evidence {
        config_option(sys, self.id(), "MODULE_SIG")
    }
}

/// `CONFIG_KALLSYMS`.
pub struct ConfigKallsyms;

impl Capability for ConfigKallsyms {
    open spec fn spec_id(&self) -> Seq<char> {
        "config.KALLSYMS"@
    }

    open spec fn spec_label(&self) -> Seq<char> {
        "CONFIG_KALLSYMS"@
    }

    open spec fn spec_probe(&self, sys: &SystemSnapshot) -> EvidenceView {
        config_option_view(sys, "config.KALLSYMS"@, "KALLSYMS"@)
    }

    fn id(&self) -> &'static str {
        "config.KALLSYMS"
    }

    fn label(&self) -> &'static str {
        "CONFIG_KALLSYMS"
    }

    fn probe(&self, sys: &SystemSnapshot) -> Evidence {
        config_option(sys, self.id(), "KALLSYMS")
    }
}

/// `CONFIG_KALLSYMS_ALL`.
pub struct ConfigKallsymsAll;

impl Capability for ConfigKallsymsAll {
    open spec fn spec_id(&self) -> Seq<char> {
        "config.KALLSYMS_ALL"@
    }

    open spec fn spec_label(&self) -> Seq<char> {
        "CONFIG_KALLSYMS_ALL"@
    }

    open spec fn spec_probe(&self, sys: &SystemSnapshot) -> EvidenceView {
        config_option_view(sys, "config.KALLSYMS_ALL"@, "KALLSYMS_ALL"@)
    }

    fn id(&self) -> &'static str {
        "config.KALLSYMS_ALL"
    }

    fn label(&self) -> &'static str {
        "CONFIG_KALLSYMS_ALL"
    }

    fn probe(&self, sys: &SystemSnapshot) -> Evidence {
        config_option(sys, self.id(), "KALLSYMS_ALL")
    }
}

/// `CONFIG_BPF`.
pub struct ConfigBpf;

impl Capability for ConfigBpf {
    open spec fn spec_id(&self) -> Seq<char> {
        "config.BPF"@
    }

    open spec fn spec_label(&self) -> Seq<char> {
        "CONFIG_BPF"@
    }

    open spec fn spec_probe(&self, sys: &SystemSnapshot) -> EvidenceView {
        config_option_view(sys, "config.BPF"@, "BPF"@)
    }

    fn id(&self) -> &'static str {
        "config.BPF"
    }

    fn label(&self) -> &'static str {
        "CONFIG_BPF"
    }

    fn probe(&self, sys: &SystemSnapshot) -> Evidence {
        config_option(sys, self.id(), "BPF")
    }
}

/// `CONFIG_DEBUG_INFO_BTF`.
pub struct ConfigDebugInfoBtf;

impl Capability for ConfigDebugInfoBtf {
    open spec fn spec_id(&self) -> Seq<char> {
        "config.DEBUG_INFO_BTF"@
    }

    open spec fn spec_label(&self) -> Seq<char> {
        "CONFIG_DEBUG_INFO_BTF"@
    }

    open spec fn spec_probe(&self, sys: &SystemSnapshot) -> EvidenceView {
        config_option_view(sys, "config.DEBUG_INFO_BTF"@, "DEBUG_INFO_BTF"@)
    }

    fn id(&self) -> &'static str {
        "config.DEBUG_INFO_BTF"
    }

    fn label(&self) -> &'static str {
        "CONFIG_DEBUG_INFO_BTF"
    }

    fn probe(&self, sys: &SystemSnapshot) -> Evidence {
        config_option(sys, self.id(), "DEBUG_INFO_BTF")
    }
}

/// `CONFIG_RUST`.
pub struct ConfigRust;

impl Capability for ConfigRust {
    open spec fn spec_id(&self) -> Seq<char> {
        "config.RUST"@
    }

    open spec fn spec_label(&self) -> Seq<char> {
        "CONFIG_RUST"@
    }

    open spec fn spec_probe(&self, sys: &SystemSnapshot) -> EvidenceView {
        config_option_view(sys, "config.RUST"@, "RUST"@)
    }

    fn id(&self) -> &'static str {
        "config.RUST"
    }

    fn label(&self) -> &'static str {
        "CONFIG_RUST"
    }

    fn probe(&self, sys: &SystemSnapshot) -> Evidence {
        config_option(sys, self.id(), "RUST")
    }
}

/// `CONFIG_RUST_IS_AVAILABLE`.
pub struct ConfigRustAvailable;

impl Capability for ConfigRustAvailable {
    open spec fn spec_id(&self) -> Seq<char> {
        "config.RUST_IS_AVAILABLE"@
    }

    open spec fn spec_label(&self) -> Seq<char> {
        "CONFIG_RUST_IS_AVAILABLE"@
    }

    open spec fn spec_probe(&self, sys: &SystemSnapshot) -> EvidenceView {
        config_option_view(sys, "config.RUST_IS_AVAILABLE"@, "RUST_IS_AVAILABLE"@)
    }

    fn id(&self) -> &'static str {
        "config.RUST_IS_AVAILABLE"
    }

    fn label(&self) -> &'static str {
        "CONFIG_RUST_IS_AVAILABLE"
    }

    fn probe(&self, sys: &SystemSnapshot) -> Evidence {
        config_option(sys, self.id(), "RUST_IS_AVAILABLE")
    }
}

/// `CONFIG_LIVEPATCH`.
pub struct ConfigLivepatch;

impl Capability for ConfigLivepatch {
    open spec fn spec_id(&self) -> Seq<char> {
        "config.LIVEPATCH"@
    }

    open spec fn spec_label(&self) -> Seq<char> {
        "CONFIG_LIVEPATCH"@
    }

    open spec fn spec_probe(&self, sys: &SystemSnapshot) -> EvidenceView {
        config_option_view(sys, "config.LIVEPATCH"@, "LIVEPATCH"@)
    }

    fn id(&self) -> &'static str {
        "config.LIVEPATCH"
    }

    fn label(&self) -> &'static str {
        "CONFIG_LIVEPATCH"
    }

    fn probe(&self, sys: &SystemSnapshot) -> Evidence {
        config_option(sys, self.id(), "LIVEPATCH")
    }
}

} // verus!
