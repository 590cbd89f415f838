//! Accessors over evidence slices.
//!
//! Every accessor looks up the first evidence item carrying the requested
//! identifier and interprets its value; an absent identifier yields the
//! accessor's default.
use crate::evidence::{display_text, Evidence, EvidenceValue, ValueView};
use crate::text::{owned, str_eq};
use vstd::prelude::*;

verus! {

/// The first evidence item whose identifier is `id`.
pub open spec fn first_with_id(evidence: Seq<Evidence>, id: Seq<char>) -> Option<Evidence>
    decreases evidence.len(),
{
    if evidence.len() == 0 {
        None
    } else if evidence[0].id@ == id {
        Some(evidence[0])
    } else {
        first_with_id(evidence.drop_first(), id)
    }
}

/// Looks up the first evidence item with identifier `id`.
pub fn find<'a>(evidence: &'a [Evidence], id: &str) -> (r: Option<&'a Evidence>)
    ensures
        match r {
            Some(e) => first_with_id(evidence@, id@) == Some(*e),
            None => first_with_id(evidence@, id@) is None,
        },
{
    let mut i: usize = 0;
    assert(evidence@.skip(0) =~= evidence@);
    while i < evidence.len()
        invariant
            i <= evidence@.len(),
            first_with_id(evidence@, id@) == first_with_id(evidence@.skip(i as int), id@),
        decreases evidence@.len() - i,
    {
        let ghost rest = evidence@.skip(i as int);
        assert(rest[0] == evidence@[i as int]);
        if str_eq(evidence[i].id, id) {
            return Some(&evidence[i]);
        }
        assert(rest.drop_first() =~= evidence@.skip(i + 1));
        i += 1;
    }
    None
}

/// Display string of `id`, or "Unknown".
#[verifier::opaque]
pub open spec fn spec_ev_s(evidence: Seq<Evidence>, id: Seq<char>) -> Seq<char> {
    match first_with_id(evidence, id) {
        Some(e) => display_text(e.value@),
        None => "Unknown"@,
    }
}

/// Truth of `id`: a true Bool, an enabled Config, or a positive Count.
#[verifier::opaque]
pub open spec fn spec_ev_bool(evidence: Seq<Evidence>, id: Seq<char>) -> bool {
    match first_with_id(evidence, id) {
        Some(e) => match e.value@ {
            ValueView::Bool(b) => b,
            ValueView::Config(cv) => cv.spec_is_enabled(),
            ValueView::Count(n) => n > 0,
            _ => false,
        },
        None => false,
    }
}

/// Known text of `id`: a present Text or a Literal.
#[verifier::opaque]
pub open spec fn spec_ev_text_value(evidence: Seq<Evidence>, id: Seq<char>) -> Option<Seq<char>> {
    match first_with_id(evidence, id) {
        Some(e) => match e.value@ {
            ValueView::Text(Some(s)) => Some(s),
            ValueView::Literal(s) => Some(s),
            _ => None,
        },
        None => None,
    }
}

/// `id` carries a present Text or Path.
#[verifier::opaque]
pub open spec fn spec_ev_text_known(evidence: Seq<Evidence>, id: Seq<char>) -> bool {
    match first_with_id(evidence, id) {
        Some(e) => match e.value@ {
            ValueView::Text(Some(_)) => true,
            ValueView::Path(Some(_)) => true,
            _ => false,
        },
        None => false,
    }
}

/// `id` carries the Status `expected`.
#[verifier::opaque]
pub open spec fn spec_ev_status_is(evidence: Seq<Evidence>, id: Seq<char>, expected: Seq<char>) -> bool {
    match first_with_id(evidence, id) {
        Some(e) => match e.value@ {
            ValueView::Status(s) => s == expected,
            _ => false,
        },
        None => false,
    }
}

/// The Status label of `id`, if it carries one.
#[verifier::opaque]
pub open spec fn spec_ev_status_value(evidence: Seq<Evidence>, id: Seq<char>) -> Option<Seq<char>> {
    match first_with_id(evidence, id) {
        Some(e) => match e.value@ {
            ValueView::Status(s) => Some(s),
            _ => None,
        },
        None => None,
    }
}

/// `id` carries a Config value other than Missing.
#[verifier::opaque]
pub open spec fn spec_ev_config_known(evidence: Seq<Evidence>, id: Seq<char>) -> bool {
    match first_with_id(evidence, id) {
        Some(e) => match e.value@ {
            ValueView::Config(cv) => cv.spec_is_known(),
            _ => false,
        },
        None => false,
    }
}

/// The config label of `id` (other values are displayed), or "Unknown".
#[verifier::opaque]
pub open spec fn spec_ev_config_label(evidence: Seq<Evidence>, id: Seq<char>, cfg_available: bool) -> Seq<char> {
    match first_with_id(evidence, id) {
        Some(e) => match e.value@ {
            ValueView::Config(cv) => cv.spec_label(cfg_available),
            v => display_text(v),
        },
        None => "Unknown"@,
    }
}

/// A known boolean for `id`: a Bool, or a known Config's enabledness.
#[verifier::opaque]
pub open spec fn spec_ev_config_bool(evidence: Seq<Evidence>, id: Seq<char>) -> Option<bool> {
    match first_with_id(evidence, id) {
        Some(e) => match e.value@ {
            ValueView::Bool(b) => Some(b),
            ValueView::Config(cv) => if cv.spec_is_known() {
                Some(cv.spec_is_enabled())
            } else {
                None
            },
            _ => None,
        },
        None => None,
    }
}

/// Display string of `id`, or "0".
#[verifier::opaque]
pub open spec fn spec_ev_count(evidence: Seq<Evidence>, id: Seq<char>) -> Seq<char> {
    match first_with_id(evidence, id) {
        Some(e) => display_text(e.value@),
        None => "0"@,
    }
}

/// Confidence label of `id`, or "low".
#[verifier::opaque]
pub open spec fn spec_ev_confidence(evidence: Seq<Evidence>, id: Seq<char>) -> Seq<char> {
    match first_with_id(evidence, id) {
        Some(e) => e.confidence.spec_label(),
        None => "low"@,
    }
}

/// Get the display string for an evidence item.
pub fn ev_s(evidence: &[Evidence], id: &str) -> (r: String)
    ensures
        r@ == spec_ev_s(evidence@, id@),
{
    reveal(spec_ev_s);
    match find(evidence, id) {
        Some(e) => e.value.display(),
        None => owned("Unknown"),
    }
}

/// Get a boolean value from evidence (Bool, enabled Config, or Count > 0).
pub fn ev_bool(evidence: &[Evidence], id: &str) -> (r: bool)
    ensures
        r == spec_ev_bool(evidence@, id@),
{
    reveal(spec_ev_bool);
    match find(evidence, id) {
        Some(e) => match &e.value {
            EvidenceValue::Bool(b) => *b,
            EvidenceValue::Config(cv) => cv.is_enabled(),
            EvidenceValue::Count(n) => *n > 0,
            _ => false,
        },
        None => false,
    }
}

/// Get a text or literal value.
pub fn ev_text_value(evidence: &[Evidence], id: &str) -> (r: Option<String>)
    ensures
        r.deep_view() == spec_ev_text_value(evidence@, id@),
{
    reveal(spec_ev_text_value);
    match find(evidence, id) {
        Some(e) => match &e.value {
            EvidenceValue::Text(Some(s)) => Some(s.clone()),
            EvidenceValue::Literal(s) => Some(s.clone()),
            _ => None,
        },
        None => None,
    }
}

/// Whether evidence has a known text or path value.
pub fn ev_text_known(evidence: &[Evidence], id: &str) -> (r: bool)
    ensures
        r == spec_ev_text_known(evidence@, id@),
{
    reveal(spec_ev_text_known);
    match find(evidence, id) {
        Some(e) => match &e.value {
            EvidenceValue::Text(Some(_)) => true,
            EvidenceValue::Path(Some(_)) => true,
            _ => false,
        },
        None => false,
    }
}

/// Whether a status evidence item matches the expected value.
pub fn ev_status_is(evidence: &[Evidence], id: &str, expected: &str) -> (r: bool)
    ensures
        r == spec_ev_status_is(evidence@, id@, expected@),
{
    reveal(spec_ev_status_is);
    match find(evidence, id) {
        Some(e) => match &e.value {
            EvidenceValue::Status(s) => str_eq(s, expected),
            _ => false,
        },
        None => false,
    }
}

/// The raw status value.
pub fn ev_status_value(evidence: &[Evidence], id: &str) -> (r: Option<String>)
    ensures
        r.deep_view() == spec_ev_status_value(evidence@, id@),
{
    reveal(spec_ev_status_value);
    match find(evidence, id) {
        Some(e) => match &e.value {
            EvidenceValue::Status(s) => Some(owned(s)),
            _ => None,
        },
        None => None,
    }
}

/// Whether a config evidence item has a known value (not Missing).
pub fn ev_config_known(evidence: &[Evidence], id: &str) -> (r: bool)
    ensures
        r == spec_ev_config_known(evidence@, id@),
{
    reveal(spec_ev_config_known);
    match find(evidence, id) {
        Some(e) => match &e.value {
            EvidenceValue::Config(cv) => cv.is_known(),
            _ => false,
        },
        None => false,
    }
}

/// A config label string, considering whether config is available.
pub fn ev_config_label(evidence: &[Evidence], id: &str, cfg_available: bool) -> (r: String)
    ensures
        r@ == spec_ev_config_label(evidence@, id@, cfg_available),
{
    reveal(spec_ev_config_label);
    match find(evidence, id) {
        Some(e) => match &e.value {
            EvidenceValue::Config(cv) => owned(cv.label(cfg_available)),
            v => v.display(),
        },
        None => owned("Unknown"),
    }
}

/// A config boolean; None if unknown or missing.
pub fn ev_config_bool(evidence: &[Evidence], id: &str) -> (r: Option<bool>)
    ensures
        r == spec_ev_config_bool(evidence@, id@),
{
    reveal(spec_ev_config_bool);
    match find(evidence, id) {
        Some(e) => match &e.value {
            EvidenceValue::Bool(b) => Some(*b),
            EvidenceValue::Config(cv) => {
                if cv.is_known() {
                    Some(cv.is_enabled())
                } else {
                    None
                }
            },
            _ => None,
        },
        None => None,
    }
}

/// A count value as string, "0" when absent.
pub fn ev_count(evidence: &[Evidence], id: &str) -> (r: String)
    ensures
        r@ == spec_ev_count(evidence@, id@),
{
    reveal(spec_ev_count);
    match find(evidence, id) {
        Some(e) => e.value.display(),
        None => owned("0"),
    }
}

/// The confidence label for an evidence item, "low" when absent.
pub fn ev_confidence(evidence: &[Evidence], id: &str) -> (r: &'static str)
    ensures
        r@ == spec_ev_confidence(evidence@, id@),
{
    reveal(spec_ev_confidence);
    match find(evidence, id) {
        Some(e) => e.confidence.label(),
        None => "low",
    }
}

/// A literal or text value.
pub fn ev_literal(evidence: &[Evidence], id: &str) -> (r: Option<String>)
    ensures
        r.deep_view() == spec_ev_text_value(evidence@, id@),
{
    reveal(spec_ev_text_value);
    match find(evidence, id) {
        Some(e) => match &e.value {
            EvidenceValue::Literal(s) => Some(s.clone()),
            EvidenceValue::Text(Some(s)) => Some(s.clone()),
            _ => None,
        },
        None => None,
    }
}

} // verus!
