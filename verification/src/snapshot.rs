//! What the probes read from the running system, as plain values.
//!
//! The program fills a [`SystemSnapshot`] by reading files, running
//! commands and inspecting `/proc` and `/sys`; every capability derives its
//! evidence from the snapshot alone.
use vstd::prelude::*;

verus! {

/// How well an installed compiler matches the one that built the kernel.
#[derive(Clone, Copy, Debug, PartialEq, Eq, Structural)]
pub enum CompilerCompat {
    Compatible,
    Probably,
    Unknown,
    NotCompatible,
}

/// State of the installed kernel headers.
#[derive(Clone, Copy, Debug, PartialEq, Eq, Structural)]
pub enum HeaderStatus {
    Complete,
    Partial,
    Missing,
}

impl HeaderStatus {
    pub open spec fn spec_label(self) -> Seq<char> {
        match self {
            HeaderStatus::Complete => "Complete"@,
            HeaderStatus::Partial => "Partial"@,
            HeaderStatus::Missing => "Missing"@,
        }
    }

    pub fn label(self) -> (r: &'static str)
        ensures
            r@ == self.spec_label(),
    {
        match self {
            HeaderStatus::Complete => "Complete",
            HeaderStatus::Partial => "Partial",
            HeaderStatus::Missing => "Missing",
        }
    }
}

/// The kernel configuration and where it was read from.
#[derive(Clone, Debug)]
pub struct KernelConfig {
    pub text: String,
    pub source: String,
}

/// Visibility of `/proc/kallsyms`.
#[derive(Clone, Copy, Debug)]
pub struct KallsymsState {
    pub exists: bool,
    pub readable: bool,
    pub root_only: bool,
}

/// The module loader.
#[derive(Clone, Debug)]
pub struct LoaderInfo {
    pub loaded_count: u64,
    pub signed_supported: bool,
    pub compression: String,
    pub livepatch_enabled: bool,
}

/// The uncompressed kernel image.
#[derive(Clone, Debug)]
pub struct VmlinuxFile {
    pub path: String,
    pub size: Option<u64>,
    pub build_id: Option<String>,
}

/// Kernel ABI identification.
#[derive(Clone, Debug)]
pub struct AbiFacts {
    pub utsrelease: Option<String>,
    pub vermagic: Option<String>,
    pub module_layout_version: Option<String>,
    pub module_compression: String,
}

/// One entry of `/proc/zenvecha`, as read (untrimmed).
#[derive(Clone, Debug)]
pub struct ProcEntry {
    pub key: String,
    pub content: String,
}

/// Everything the capabilities read from the system.
#[derive(Clone, Debug)]
pub struct SystemSnapshot {
    pub kernel_release: Option<String>,
    pub architecture: Option<String>,
    pub distro: Option<String>,
    pub compiler_version: Option<String>,
    /// A C compiler is installed.
    pub compiler_available: bool,
    /// The compiler that built the running kernel.
    pub kernel_compiler: Option<String>,
    pub gcc_compat: CompilerCompat,
    pub config: Option<KernelConfig>,
    pub headers_available: bool,
    pub signing_enabled: Option<bool>,
    pub loader: LoaderInfo,
    pub kallsyms: KallsymsState,
    pub symbol_count: Option<u64>,
    pub vmlinux: Option<VmlinuxFile>,
    pub module_symvers_path: Option<String>,
    pub btf_available: bool,
    pub dwarf_available: bool,
    pub abi: AbiFacts,
    pub rustc: Option<String>,
    pub bindgen: Option<String>,
    pub llvm_version: Option<String>,
    /// `make` is on the PATH.
    pub make_available: bool,
    pub header_status: HeaderStatus,
    pub build_dir: Option<String>,
    pub source_dir: Option<String>,
    pub compile_commands: bool,
    /// Text of `/proc/mounts` (empty when unreadable).
    pub mounts: String,
    /// `/proc/zenvecha` exists: the kernel module is loaded.
    pub module_dir_present: bool,
    /// The `/proc/zenvecha` entries that could be read.
    pub proc_entries: Vec<ProcEntry>,
}

} // verus!
