//! Evidence model: the facts every capability probe produces.
//!
//! Evidence carries only facts. Rendering, scoring and recommendations are
//! derived from it downstream.
use crate::kconfig::ConfigValue;
use crate::text::{decimal, digit_char, owned, push_decimal, u64_to_string};
use vstd::prelude::*;

verus! {

/// Namespaced capability identifier, `domain.key` (e.g. `kernel.release`).
pub type CapabilityId = &'static str;

/// Status of a capability probe.
#[derive(Clone, Copy, Debug, PartialEq, Eq, Structural)]
pub enum ProbeStatus {
    /// Probe succeeded, data is reliable.
    Present,
    /// Probe ran but found nothing (not an error).
    Missing,
    /// Probe failed or was denied access.
    Denied,
    /// Probe was skipped.
    Skipped,
}

impl ProbeStatus {
    pub open spec fn spec_label(self) -> Seq<char> {
        match self {
            ProbeStatus::Present => "present"@,
            ProbeStatus::Missing => "missing"@,
            ProbeStatus::Denied => "denied"@,
            ProbeStatus::Skipped => "skipped"@,
        }
    }

    pub fn label(self) -> (r: &'static str)
        ensures
            r@ == self.spec_label(),
    {
        match self {
            ProbeStatus::Present => "present",
            ProbeStatus::Missing => "missing",
            ProbeStatus::Denied => "denied",
            ProbeStatus::Skipped => "skipped",
        }
    }
}

/// Confidence level of the evidence.
#[derive(Clone, Copy, Debug, PartialEq, Eq, Structural)]
pub enum Confidence {
    High,
    Medium,
    Low,
}

impl Confidence {
    pub open spec fn spec_label(self) -> Seq<char> {
        match self {
            Confidence::High => "high"@,
            Confidence::Medium => "medium"@,
            Confidence::Low => "low"@,
        }
    }

    pub fn label(self) -> (r: &'static str)
        ensures
            r@ == self.spec_label(),
    {
        match self {
            Confidence::High => "high",
            Confidence::Medium => "medium",
            Confidence::Low => "low",
        }
    }
}

/// Severity of a finding.
#[derive(Clone, Copy, Debug, PartialEq, Eq, Structural)]
pub enum Severity {
    Info,
    Warning,
    Critical,
}

impl Severity {
    pub open spec fn spec_label(self) -> Seq<char> {
        match self {
            Severity::Info => "info"@,
            Severity::Warning => "warning"@,
            Severity::Critical => "critical"@,
        }
    }

    pub fn label(self) -> (r: &'static str)
        ensures
            r@ == self.spec_label(),
    {
        match self {
            Severity::Info => "info",
            Severity::Warning => "warning",
            Severity::Critical => "critical",
        }
    }
}

/// Typed evidence value; each variant carries the raw data.
#[derive(Clone, Debug)]
pub enum EvidenceValue {
    /// A string value, or None if not found.
    Text(Option<String>),
    /// A boolean value.
    Bool(bool),
    /// A kernel configuration value (y/m/n/missing).
    Config(ConfigValue),
    /// A count (symbols, modules, CRCs, ...).
    Count(u64),
    /// A size in bytes.
    Size(u64),
    /// A status label.
    Status(&'static str),
    /// A path that may or may not exist.
    Path(Option<String>),
    /// A string that always has a value.
    Literal(String),
}

/// Mathematical model of an [`EvidenceValue`]: strings become character sequences.
pub enum ValueView {
    Text(Option<Seq<char>>),
    Bool(bool),
    Config(ConfigValue),
    Count(u64),
    Size(u64),
    Status(Seq<char>),
    Path(Option<Seq<char>>),
    Literal(Seq<char>),
}

impl View for EvidenceValue {
    type V = ValueView;

    open spec fn view(&self) -> ValueView {
        match self {
            EvidenceValue::Text(t) => ValueView::Text(t.deep_view()),
            EvidenceValue::Bool(b) => ValueView::Bool(*b),
            EvidenceValue::Config(c) => ValueView::Config(*c),
            EvidenceValue::Count(n) => ValueView::Count(*n),
            EvidenceValue::Size(n) => ValueView::Size(*n),
            EvidenceValue::Status(s) => ValueView::Status(s@),
            EvidenceValue::Path(p) => ValueView::Path(p.deep_view()),
            EvidenceValue::Literal(s) => ValueView::Literal(s@),
        }
    }
}

/// Rounds `bytes * 10 / unit` to the nearest integer, ties to the even one.
pub open spec fn tenths(bytes: nat, unit: nat) -> nat
    recommends
        unit > 0,
{
    let q = (bytes * 10) / unit;
    let r = (bytes * 10) % unit;
    if 2 * r > unit || (2 * r == unit && q % 2 == 1) {
        q + 1
    } else {
        q
    }
}

/// A number of tenths rendered with one decimal place.
pub open spec fn one_decimal(t: nat) -> Seq<char> {
    decimal(t / 10) + "."@ + seq![digit_char(t % 10)]
}

/// Human-readable byte size: one decimal of MB or KB, or whole bytes.
pub open spec fn size_text(bytes: nat) -> Seq<char> {
    if bytes >= 1048576 {
        one_decimal(tenths(bytes, 1048576)) + " MB"@
    } else if bytes >= 1024 {
        one_decimal(tenths(bytes, 1024)) + " KB"@
    } else {
        decimal(bytes) + " B"@
    }
}

/// The display string of a value.
pub open spec fn display_text(v: ValueView) -> Seq<char> {
    match v {
        ValueView::Text(Some(s)) => s,
        ValueView::Text(None) => "Unknown"@,
        ValueView::Bool(b) => if b {
            "yes"@
        } else {
            "no"@
        },
        ValueView::Config(cv) => cv.spec_label(true),
        ValueView::Count(n) => decimal(n as nat),
        ValueView::Size(n) => size_text(n as nat),
        ValueView::Status(s) => s,
        ValueView::Path(Some(p)) => p,
        ValueView::Path(None) => "not found"@,
        ValueView::Literal(s) => s,
    }
}

/// Rounded tenths of `bytes / unit`, as computed by [`tenths`].
fn rounded_tenths(bytes: u64, unit: u64) -> (t: u64)
    requires
        unit == 1024 || unit == 1048576,
    ensures
        t as nat == tenths(bytes as nat, unit as nat),
{
    let x: u128 = (bytes as u128) * 10;
    let q: u128 = x / (unit as u128);
    let r: u128 = x % (unit as u128);
    let res: u128 = if 2 * r > unit as u128 || (2 * r == unit as u128 && q % 2 == 1) {
        q + 1
    } else {
        q
    };
    assert(res < 0x1_0000_0000_0000_0000u128) by {
        let xi = x as int;
        let ui = unit as int;
        vstd::arithmetic::div_mod::lemma_fundamental_div_mod(xi, ui);
        assert(q as int == xi / ui);
        assert((xi / ui) * 1024 <= xi) by (nonlinear_arith)
            requires
                xi == ui * (xi / ui) + xi % ui,
                xi % ui >= 0,
                ui >= 1024,
                xi >= 0,
        ;
    }
    res as u64
}

/// Appends a one-decimal rendering of `t` tenths.
fn push_one_decimal(s: &mut String, t: u64)
    ensures
        final(s)@ == old(s)@ + one_decimal(t as nat),
{
    push_decimal(s, t / 10);
    s.append(".");
    let d: u64 = t % 10;
    let mut tail = String::new();
    push_decimal(&mut tail, d);
    assert(decimal(d as nat) == seq![digit_char(d as nat)]);
    s.append(tail.as_str());
    assert(final(s)@ =~= old(s)@ + one_decimal(t as nat));
}

/// Human-readable byte size.
pub fn format_size(bytes: u64) -> (r: String)
    ensures
        r@ == size_text(bytes as nat),
{
    let mut s = String::new();
    if bytes >= 1048576 {
        push_one_decimal(&mut s, rounded_tenths(bytes, 1048576));
        s.append(" MB");
    } else if bytes >= 1024 {
        push_one_decimal(&mut s, rounded_tenths(bytes, 1024));
        s.append(" KB");
    } else {
        push_decimal(&mut s, bytes);
        s.append(" B");
    }
    assert(s@ =~= size_text(bytes as nat));
    s
}

impl EvidenceValue {
    /// The value as a display string.
    pub fn display(&self) -> (r: String)
        ensures
            r@ == display_text(self@),
    {
        match self {
            EvidenceValue::Text(Some(s)) => s.clone(),
            EvidenceValue::Text(None) => owned("Unknown"),
            EvidenceValue::Bool(true) => owned("yes"),
            EvidenceValue::Bool(false) => owned("no"),
            EvidenceValue::Config(cv) => owned(cv.label(true)),
            EvidenceValue::Count(n) => u64_to_string(*n),
            EvidenceValue::Size(n) => format_size(*n),
            EvidenceValue::Status(s) => owned(s),
            EvidenceValue::Path(Some(p)) => p.clone(),
            EvidenceValue::Path(None) => owned("not found"),
            EvidenceValue::Literal(s) => s.clone(),
        }
    }
}

/// A single piece of evidence from a capability probe.
#[derive(Clone, Debug)]
pub struct Evidence {
    /// Capability identifier (e.g. "kernel.release").
    pub id: CapabilityId,
    /// Whether the probe succeeded.
    pub status: ProbeStatus,
    /// How confident the probe is.
    pub confidence: Confidence,
    /// The data.
    pub value: EvidenceValue,
}

/// Mathematical model of [`Evidence`].
pub struct EvidenceView {
    pub id: Seq<char>,
    pub status: ProbeStatus,
    pub confidence: Confidence,
    pub value: ValueView,
}

impl View for Evidence {
    type V = EvidenceView;

    open spec fn view(&self) -> EvidenceView {
        EvidenceView {
            id: self.id@,
            status: self.status,
            confidence: self.confidence,
            value: self.value@,
        }
    }
}

impl Evidence {
    /// Evidence from a successful probe.
    pub fn present(id: CapabilityId, value: EvidenceValue) -> (r: Self)
        ensures
            r.id == id,
            r.status == ProbeStatus::Present,
            r.confidence == Confidence::High,
            r.value == value,
    {
        Evidence { id, status: ProbeStatus::Present, confidence: Confidence::High, value }
    }

    /// Evidence for a probe that found nothing.
    pub fn missing(id: CapabilityId, value: EvidenceValue) -> (r: Self)
        ensures
            r.id == id,
            r.status == ProbeStatus::Missing,
            r.confidence == Confidence::High,
            r.value == value,
    {
        Evidence { id, status: ProbeStatus::Missing, confidence: Confidence::High, value }
    }

    /// The same evidence with an explicit confidence.
    pub fn with_confidence(self, confidence: Confidence) -> (r: Self)
        ensures
            r.id == self.id,
            r.status == self.status,
            r.confidence == confidence,
            r.value == self.value,
    {
        Evidence { confidence, ..self }
    }
}

} // verus!
