//! Capabilities reported by the zenvecha kernel module through
//! `/proc/zenvecha`. Without the module they report missing evidence;
//! they never fail.
pub mod btf;
pub mod graph;
pub mod graph_laws;
pub mod loader;
pub mod memory;
pub mod module;
pub mod scheduler;
pub mod security;
pub mod symbols;
pub mod tracepoints;
pub mod tracing;
pub mod version;

use crate::capability::{missing_view, present_view};
use crate::evidence::{Evidence, EvidenceValue, EvidenceView, ValueView};
use crate::scan::{trim, trim_str};
use crate::snapshot::{ProcEntry, SystemSnapshot};
use crate::text::{owned, str_eq};
use vstd::prelude::*;

verus! {

/// The trimmed content of the first entry `key` at or after index `i`.
pub open spec fn proc_value_from(entries: Seq<ProcEntry>, key: Seq<char>, i: int) -> Option<Seq<char>>
    decreases entries.len() - i,
{
    if i < 0 || i >= entries.len() {
        None
    } else if entries[i].key@ == key {
        Some(trim(entries[i].content@))
    } else {
        proc_value_from(entries, key, i + 1)
    }
}

/// The trimmed content of `/proc/zenvecha/<key>`, when it was read.
pub open spec fn proc_value(sys: &SystemSnapshot, key: Seq<char>) -> Option<Seq<char>> {
    proc_value_from(sys.proc_entries@, key, 0)
}

/// Reads one `/proc/zenvecha` entry, trimmed.
pub fn read_proc(sys: &SystemSnapshot, key: &str) -> (r: Option<String>)
    ensures
        r.deep_view() == proc_value(sys, key@),
{
    let entries = &sys.proc_entries;
    let mut i: usize = 0;
    while i < entries.len()
        invariant
            i <= entries@.len(),
            entries@ == sys.proc_entries@,
            proc_value(sys, key@) == proc_value_from(entries@, key@, i as int),
        decreases entries@.len() - i,
    {
        if str_eq(entries[i].key.as_str(), key) {
            return Some(owned(trim_str(entries[i].content.as_str())));
        }
        i += 1;
    }
    None
}

/// Whether the zenvecha kernel module is loaded.
pub fn module_loaded(sys: &SystemSnapshot) -> (r: bool)
    ensures
        r == sys.module_dir_present,
{
    sys.module_dir_present
}

/// Text evidence of an entry: present with its value, missing without.
pub open spec fn text_view(sys: &SystemSnapshot, id: Seq<char>, key: Seq<char>) -> EvidenceView {
    match proc_value(sys, key) {
        Some(v) => present_view(id, ValueView::Text(Some(v))),
        None => missing_view(id, ValueView::Text(None)),
    }
}

pub fn kernel_text(sys: &SystemSnapshot, id: &'static str, key: &str) -> (e: Evidence)
    ensures
        e@ == text_view(sys, id@, key@),
{
    match read_proc(sys, key) {
        Some(v) => Evidence::present(id, EvidenceValue::Text(Some(v))),
        None => Evidence::missing(id, EvidenceValue::Text(None)),
    }
}

/// An entry reads true when it says exactly `expected`; a missing entry
/// reads false.
pub open spec fn entry_is(sys: &SystemSnapshot, key: Seq<char>, expected: Seq<char>) -> bool {
    match proc_value(sys, key) {
        Some(v) => v == expected,
        None => false,
    }
}

fn entry_equals(sys: &SystemSnapshot, key: &str, expected: &str) -> (r: bool)
    ensures
        r == entry_is(sys, key@, expected@),
{
    match read_proc(sys, key) {
        Some(v) => str_eq(v.as_str(), expected),
        None => false,
    }
}

/// Boolean evidence of an entry that says `yes` when the feature is on.
pub open spec fn bool_view(sys: &SystemSnapshot, id: Seq<char>, key: Seq<char>) -> EvidenceView {
    present_view(id, ValueView::Bool(entry_is(sys, key, "yes"@)))
}

pub fn kernel_bool(sys: &SystemSnapshot, id: &'static str, key: &str) -> (e: Evidence)
    ensures
        e@ == bool_view(sys, id@, key@),
{
    Evidence::present(id, EvidenceValue::Bool(entry_equals(sys, key, "yes")))
}

/// Presence evidence: whether the module answers for `key`.
pub open spec fn status_view(sys: &SystemSnapshot, id: Seq<char>, key: Seq<char>) -> EvidenceView {
    present_view(id, ValueView::Bool(proc_value(sys, key) is Some))
}

pub fn kernel_status(sys: &SystemSnapshot, id: &'static str, key: &str) -> (e: Evidence)
    ensures
        e@ == status_view(sys, id@, key@),
{
    Evidence::present(id, EvidenceValue::Bool(read_proc(sys, key).is_some()))
}

/// Boolean evidence of an entry that equals `expected` when the feature
/// is available.
pub open spec fn flag_view(sys: &SystemSnapshot, id: Seq<char>, key: Seq<char>, expected: Seq<char>) -> EvidenceView {
    present_view(id, ValueView::Bool(entry_is(sys, key, expected)))
}

pub fn kernel_flag(sys: &SystemSnapshot, id: &'static str, key: &str, expected: &str) -> (e: Evidence)
    ensures
        e@ == flag_view(sys, id@, key@, expected@),
{
    Evidence::present(id, EvidenceValue::Bool(entry_equals(sys, key, expected)))
}

} // verus!
