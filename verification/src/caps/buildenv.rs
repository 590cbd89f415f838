//! Build environment capabilities: headers, directories, compile_commands.
use crate::capability::{missing_view, present_view, Capability};
use crate::evidence::{Evidence, EvidenceValue, EvidenceView, ValueView};
use crate::snapshot::SystemSnapshot;
use crate::caps::kernel::copy_opt;
use vstd::prelude::*;

verus! {

/// State of the installed kernel headers.
pub struct HeaderIntegrity;

impl Capability for HeaderIntegrity {
    open spec fn spec_id(&self) -> Seq<char> {
        "build.headers"@
    }

    open spec fn spec_label(&self) -> Seq<char> {
        "Header Integrity"@
    }

    open spec fn spec_probe(&self, sys: &SystemSnapshot) -> EvidenceView {
        present_view("build.headers"@, ValueView::Status(sys.header_status.spec_label()))
    }

    fn id(&self) -> &'static str {
        "build.headers"
    }

    fn label(&self) -> &'static str {
        "Header Integrity"
    }

    fn probe(&self, sys: &SystemSnapshot) -> Evidence {
        Evidence::present(self.id(), EvidenceValue::Status(sys.header_status.label()))
    }
}

/// The kernel build directory.
pub struct BuildDirectory;

impl Capability for BuildDirectory {
    open spec fn spec_id(&self) -> Seq<char> {
        "build.dir"@
    }

    open spec fn spec_label(&self) -> Seq<char> {
        "Build Directory"@
    }

    open spec fn spec_probe(&self, sys: &SystemSnapshot) -> EvidenceView {
        present_view("build.dir"@, ValueView::Text(sys.build_dir.deep_view()))
    }

    fn id(&self) -> &'static str {
        "build.dir"
    }

    fn label(&self) -> &'static str {
        "Build Directory"
    }

    fn probe(&self, sys: &SystemSnapshot) -> Evidence {
        Evidence::present(self.id(), EvidenceValue::Text(copy_opt(&sys.build_dir)))
    }
}

/// The kernel source directory.
pub struct SourceDirectory;

impl Capability for SourceDirectory {
    open spec fn spec_id(&self) -> Seq<char> {
        "build.source"@
    }

    open spec fn spec_label(&self) -> Seq<char> {
        "Source Directory"@
    }

    open spec fn spec_probe(&self, sys: &SystemSnapshot) -> EvidenceView {
        present_view("build.source"@, ValueView::Text(sys.source_dir.deep_view()))
    }

    fn id(&self) -> &'static str {
        "build.source"
    }

    fn label(&self) -> &'static str {
        "Source Directory"
    }

    fn probe(&self, sys: &SystemSnapshot) -> Evidence {
        Evidence::present(self.id(), EvidenceValue::Text(copy_opt(&sys.source_dir)))
    }
}

/// A compilation database is present.
pub struct CompileCommands;

impl Capability for CompileCommands {
    open spec fn spec_id(&self) -> Seq<char> {
        "build.compile_commands"@
    }

    open spec fn spec_label(&self) -> Seq<char> {
        "compile_commands.json"@
    }

    open spec fn spec_probe(&self, sys: &SystemSnapshot) -> EvidenceView {
        present_view("build.compile_commands"@, ValueView::Bool(sys.compile_commands))
    }

    fn id(&self) -> &'static str {
        "build.compile_commands"
    }

    fn label(&self) -> &'static str {
        "compile_commands.json"
    }

    fn probe(&self, sys: &SystemSnapshot) -> Evidence {
        Evidence::present(self.id(), EvidenceValue::Bool(sys.compile_commands))
    }
}

} // verus!
