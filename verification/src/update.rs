//! The release check: reads the answer of the release API (its body, a
//! newline, then the HTTP status) and compares the latest tag with the
//! running version.
use crate::scan::{skip_ws, trim, trim_str};
use crate::text::{concat2, find_from, owned, seq_starts_with, str_eq, str_find, str_starts_with};
use vstd::prelude::*;

verus! {

/// Why a release check failed.
#[derive(Clone, Copy, Debug, PartialEq, Eq, Structural)]
pub enum UpdateCheckError {
    /// The answer has no status line.
    Malformed,
    /// The API answered with another status than 200 (0 when unreadable).
    HttpStatus(u16),
    /// No release tag could be read from the body.
    TagNotFound,
}

impl UpdateCheckError {
    /// The message shown after "zenvecha update check failed: ".
    pub open spec fn spec_message(self) -> Seq<char> {
        match self {
            UpdateCheckError::Malformed => "GitHub API response was malformed"@,
            UpdateCheckError::HttpStatus(_) => "GitHub API returned HTTP "@,
            UpdateCheckError::TagNotFound => "could not parse latest release tag"@,
        }
    }
}

// ---------------------------------------------------------------------------
//  Decimal status codes
// ---------------------------------------------------------------------------

pub open spec fn is_digit(c: char) -> bool {
    '0' <= c <= '9'
}

/// The value of a string of decimal digits.
pub open spec fn digits_value(s: Seq<char>) -> nat
    decreases s.len(),
{
    if s.len() == 0 {
        0
    } else {
        digits_value(s.drop_last()) * 10 + ((s.last() as u32) - ('0' as u32)) as nat
    }
}

/// `s` without one leading `+`.
pub open spec fn unsigned_part(s: Seq<char>) -> Seq<char> {
    if s.len() > 0 && s[0] == '+' {
        s.drop_first()
    } else {
        s
    }
}

/// Every character of `d` is a decimal digit.
pub open spec fn all_digits(d: Seq<char>) -> bool {
    forall|i: int| 0 <= i < d.len() ==> is_digit(#[trigger] d[i])
}

/// How `str::parse::<u16>` reads `s`: an optional `+`, then at least one
/// decimal digit and nothing else, with a value below 65536.
pub open spec fn parse_u16_spec(s: Seq<char>) -> Option<u16> {
    let d = unsigned_part(s);
    if d.len() > 0 && all_digits(d) && digits_value(d) <= 65535 {
        Some(digits_value(d) as u16)
    } else {
        None
    }
}

proof fn lemma_digits_prefix_monotone(d: Seq<char>, k: int)
    requires
        0 <= k <= d.len(),
        all_digits(d),
    ensures
        digits_value(d.take(k)) <= digits_value(d),
    decreases d.len() - k,
{
    if k < d.len() {
        lemma_digits_prefix_monotone(d, k + 1);
        assert(d.take(k + 1).drop_last() =~= d.take(k));
        assert(is_digit(d[k]));
    } else {
        assert(d.take(k) =~= d);
    }
}

pub fn parse_u16(s: &str) -> (r: Option<u16>)
    ensures
        r == parse_u16_spec(s@),
{
    let n = s.unicode_len();
    let mut start: usize = 0;
    if n > 0 && s.get_char(0) == '+' {
        start = 1;
    }
    let ghost d = s@.skip(start as int);
    assert(d =~= unsigned_part(s@));
    if start == n {
        return None;
    }
    let mut value: u32 = 0;
    let mut i = start;
    while i < n
        invariant
            n == s@.len(),
            start <= i <= n,
            d == s@.skip(start as int),
            d == unsigned_part(s@),
            forall|k: int| 0 <= k < i - start ==> is_digit(#[trigger] d[k]),
            value == digits_value(d.take(i - start)),
            value <= 65535,
        decreases n - i,
    {
        let c = s.get_char(i);
        if !('0' <= c && c <= '9') {
            assert(!is_digit(d[i - start]));
            assert(!all_digits(d));
            assert(parse_u16_spec(s@) is None);
            return None;
        }
        assert(d.take(i + 1 - start).drop_last() =~= d.take(i - start));
        assert(d[i - start] == c);
        let next: u32 = value * 10 + (c as u32 - '0' as u32);
        assert(digits_value(d.take(i + 1 - start)) == next);
        if next > 65535 {
            proof {
                if all_digits(d) {
                    lemma_digits_prefix_monotone(d, i + 1 - start);
                }
            }
            assert(parse_u16_spec(s@) is None);
            return None;
        }
        value = next;
        i += 1;
    }
    assert(d.take(n - start) =~= d);
    Some(value as u16)
}

// ---------------------------------------------------------------------------
//  The release answer
// ---------------------------------------------------------------------------

/// Index of the last `'\n'` in `s` before index `end`.
pub open spec fn last_newline_before(s: Seq<char>, end: int) -> Option<int>
    decreases end,
{
    if end <= 0 || end > s.len() {
        None
    } else if s[end - 1] == '\n' {
        Some(end - 1)
    } else {
        last_newline_before(s, end - 1)
    }
}

proof fn lemma_last_newline_bounds(s: Seq<char>, end: int)
    ensures
        last_newline_before(s, end) matches Some(k) ==> 0 <= k < end && k < s.len() && s[k] == '\n',
    decreases end,
{
    if !(end <= 0 || end > s.len()) && s[end - 1] != '\n' {
        lemma_last_newline_bounds(s, end - 1);
    }
}

/// The tag that follows the `"tag_name"` key of a JSON body: after the key,
/// optional white space, a colon, optional white space, and the quoted
/// value up to the next quote.
pub open spec fn tag_after_key(body: Seq<char>) -> Option<Seq<char>> {
    match find_from(body, "\"tag_name\""@, 0) {
        None => None,
        Some(p) => {
            let rest = skip_ws(body.skip(p + "\"tag_name\""@.len()));
            if rest.len() > 0 && rest[0] == ':' {
                let rest2 = skip_ws(rest.drop_first());
                if rest2.len() > 0 && rest2[0] == '"' {
                    let value = rest2.drop_first();
                    match find_from(value, "\""@, 0) {
                        Some(e) => Some(value.take(e)),
                        None => None,
                    }
                } else {
                    None
                }
            } else {
                None
            }
        },
    }
}

/// The latest release tag in an API answer, or why it cannot be read.
pub open spec fn spec_release_tag(raw: Seq<char>) -> Result<Seq<char>, UpdateCheckError> {
    match last_newline_before(raw, raw.len() as int) {
        None => Err(UpdateCheckError::Malformed),
        Some(nl) => {
            let body = raw.take(nl);
            let status = match parse_u16_spec(trim(raw.skip(nl + 1))) {
                Some(v) => v,
                None => 0,
            };
            if status != 200 {
                Err(UpdateCheckError::HttpStatus(status))
            } else {
                match tag_after_key(body) {
                    Some(t) => Ok(t),
                    None => Err(UpdateCheckError::TagNotFound),
                }
            }
        },
    }
}

fn find_last_newline(s: &str) -> (r: Option<usize>)
    ensures
        match last_newline_before(s@, s@.len() as int) {
            Some(i) => r == Some(i as usize),
            None => r is None,
        },
{
    let n = s.unicode_len();
    let mut end = n;
    while end > 0
        invariant
            n == s@.len(),
            end <= n,
            last_newline_before(s@, n as int) == last_newline_before(s@, end as int),
        decreases end,
    {
        if s.get_char(end - 1) == '\n' {
            return Some(end - 1);
        }
        end -= 1;
    }
    None
}

fn skip_ws_str(s: &str) -> (r: &str)
    ensures
        r@ == skip_ws(s@),
{
    let n = s.unicode_len();
    let mut i: usize = 0;
    assert(s@.skip(0) =~= s@);
    while i < n && crate::scan::is_ws_char(s.get_char(i))
        invariant
            n == s@.len(),
            i <= n,
            skip_ws(s@) == skip_ws(s@.skip(i as int)),
        decreases n - i,
    {
        assert(s@.skip(i as int).drop_first() =~= s@.skip(i + 1));
        assert(s@.skip(i as int)[0] == s@[i as int]);
        i += 1;
    }
    proof {
        if i < n {
            assert(s@.skip(i as int)[0] == s@[i as int]);
        }
    }
    assert(s@.skip(i as int) =~= s@.subrange(i as int, n as int));
    s.substring_char(i, n)
}

fn tag_value(body: &str) -> (r: Option<String>)
    ensures
        r.deep_view() == tag_after_key(body@),
{
    let n = body.unicode_len();
    let key = "\"tag_name\"";
    let p = match str_find(body, key) {
        Some(p) => p,
        None => {
            return None;
        },
    };
    proof {
        reveal_strlit("\"tag_name\"");
        crate::text::lemma_find_from_occurs(body@, key@, 0);
    }
    assert(p + 10 <= n);
    let after = body.substring_char(p + 10, n);
    assert(after@ =~= body@.skip(p + "\"tag_name\""@.len()));
    let rest = skip_ws_str(after);
    let rn = rest.unicode_len();
    if rn == 0 || rest.get_char(0) != ':' {
        return None;
    }
    let rest2 = skip_ws_str(rest.substring_char(1, rn));
    assert(rest@.drop_first() =~= rest@.subrange(1, rn as int));
    let r2n = rest2.unicode_len();
    if r2n == 0 || rest2.get_char(0) != '"' {
        return None;
    }
    let value = rest2.substring_char(1, r2n);
    assert(value@ =~= rest2@.drop_first());
    match str_find(value, "\"") {
        Some(e) => {
            proof {
                crate::text::lemma_find_from_occurs(value@, "\""@, 0);
            }
            assert(value@.subrange(0, e as int) =~= value@.take(e as int));
            Some(owned(value.substring_char(0, e)))
        },
        None => None,
    }
}

/// Reads the latest release tag from an API answer: the JSON body, a
/// newline, and the HTTP status code.
pub fn release_tag(raw: &str) -> (r: Result<String, UpdateCheckError>)
    ensures
        match spec_release_tag(raw@) {
            Ok(t) => r matches Ok(s) && s@ == t,
            Err(e) => r == Err::<String, UpdateCheckError>(e),
        },
{
    let n = raw.unicode_len();
    let nl = match find_last_newline(raw) {
        Some(i) => i,
        None => {
            return Err(UpdateCheckError::Malformed);
        },
    };
    proof {
        lemma_last_newline_bounds(raw@, raw@.len() as int);
    }
    let body = raw.substring_char(0, nl);
    assert(body@ =~= raw@.take(nl as int));
    let status_text = raw.substring_char(nl + 1, n);
    assert(status_text@ =~= raw@.skip(nl + 1));
    let status = match parse_u16(trim_str(status_text)) {
        Some(v) => v,
        None => 0,
    };
    if status != 200 {
        return Err(UpdateCheckError::HttpStatus(status));
    }
    match tag_value(body) {
        Some(t) => Ok(t),
        None => Err(UpdateCheckError::TagNotFound),
    }
}

/// Current and latest versions, both with a leading `v`.
pub struct UpdateReport {
    pub current: String,
    pub latest: String,
    pub up_to_date: bool,
}

/// `tag` with a leading `v` (unchanged when it has one).
pub open spec fn with_v(tag: Seq<char>) -> Seq<char> {
    if seq_starts_with(tag, "v"@) {
        tag
    } else {
        "v"@ + tag
    }
}

/// Compares the running version (without `v`) with the latest tag.
pub fn compare_versions(version: &str, latest_tag: &str) -> (r: UpdateReport)
    ensures
        r.current@ == "v"@ + version@,
        r.latest@ == with_v(latest_tag@),
        r.up_to_date == (r.current@ == r.latest@),
{
    let current = concat2("v", version);
    let latest = if str_starts_with(latest_tag, "v") {
        owned(latest_tag)
    } else {
        concat2("v", latest_tag)
    };
    let up_to_date = str_eq(current.as_str(), latest.as_str());
    UpdateReport { current, latest, up_to_date }
}

/// The release tag of the running version, with or without its `v`,
/// compares as up to date.
pub proof fn lemma_own_tag_is_up_to_date(version: Seq<char>)
    ensures
        with_v("v"@ + version) == "v"@ + version,
        !seq_starts_with(version, "v"@) ==> with_v(version) == "v"@ + version,
{
    reveal_strlit("v");
    assert(("v"@ + version).subrange(0, 1) =~= "v"@);
}

} // verus!
