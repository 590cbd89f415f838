//! Filesystem capabilities: debugfs and tracefs mounts.
use crate::capability::{missing_view, present_view, Capability};
use crate::evidence::{Evidence, EvidenceValue, EvidenceView, ValueView};
use crate::snapshot::SystemSnapshot;
use crate::caps::{mount_at, spec_mount_ok};
use vstd::prelude::*;

verus! {

/// debugfs is mounted at `/sys/kernel/debug`.
pub struct DebugfsMounted;

impl Capability for DebugfsMounted {
    open spec fn spec_id(&self) -> Seq<char> {
        "fs.debugfs"@
    }

    open spec fn spec_label(&self) -> Seq<char> {
        "debugfs"@
    }

    open spec fn spec_probe(&self, sys: &SystemSnapshot) -> EvidenceView {
        present_view("fs.debugfs"@, ValueView::Bool(spec_mount_ok(sys, "/sys/kernel/debug"@)))
    }

    fn id(&self) -> &'static str {
        "fs.debugfs"
    }

    fn label(&self) -> &'static str {
        "debugfs"
    }

    fn probe(&self, sys: &SystemSnapshot) -> Evidence {
        Evidence::present(self.id(), EvidenceValue::Bool(mount_at(sys, "/sys/kernel/debug")))
    }
}

/// tracefs is mounted at `/sys/kernel/tracing`.
pub struct TracefsMounted;

impl Capability for TracefsMounted {
    open spec fn spec_id(&self) -> Seq<char> {
        "fs.tracefs"@
    }

    open spec fn spec_label(&self) -> Seq<char> {
        "tracefs"@
    }

    open spec fn spec_probe(&self, sys: &SystemSnapshot) -> EvidenceView {
        present_view("fs.tracefs"@, ValueView::Bool(spec_mount_ok(sys, "/sys/kernel/tracing"@)))
    }

    fn id(&self) -> &'static str {
        "fs.tracefs"
    }

    fn label(&self) -> &'static str {
        "tracefs"
    }

    fn probe(&self, sys: &SystemSnapshot) -> Evidence {
        Evidence::present(self.id(), EvidenceValue::Bool(mount_at(sys, "/sys/kernel/tracing")))
    }
}

} // verus!
