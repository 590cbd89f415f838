//! Line and field scanning of the text files the probes read
//! (`/proc/mounts`, kernel `.config`, proc entries).
//!
//! Whitespace is Unicode White_Space, as `char::is_whitespace` has it; lines
//! end at `'\n'`, as `str::lines` has them (a trailing `'\r'` is whitespace).
use vstd::prelude::*;

verus! {

/// `c` is Unicode white space.
pub open spec fn is_ws(c: char) -> bool {
    let u = c as u32;
    (0x9 <= u <= 0xd) || u == 0x20 || u == 0x85 || u == 0xa0 || u == 0x1680 || (0x2000 <= u
        <= 0x200a) || u == 0x2028 || u == 0x2029 || u == 0x202f || u == 0x205f || u == 0x3000
}

pub fn is_ws_char(c: char) -> (r: bool)
    ensures
        r == is_ws(c),
{
    let u = c as u32;
    (0x9 <= u && u <= 0xd) || u == 0x20 || u == 0x85 || u == 0xa0 || u == 0x1680 || (0x2000 <= u
        && u <= 0x200a) || u == 0x2028 || u == 0x2029 || u == 0x202f || u == 0x205f || u == 0x3000
}

/// `s` without its leading white space.
pub open spec fn skip_ws(s: Seq<char>) -> Seq<char>
    decreases s.len(),
{
    if s.len() > 0 && is_ws(s[0]) {
        skip_ws(s.drop_first())
    } else {
        s
    }
}

/// `s` without its trailing white space.
pub open spec fn trim_end(s: Seq<char>) -> Seq<char>
    decreases s.len(),
{
    if s.len() > 0 && is_ws(s.last()) {
        trim_end(s.drop_last())
    } else {
        s
    }
}

/// `s` without leading and trailing white space.
pub open spec fn trim(s: Seq<char>) -> Seq<char> {
    trim_end(skip_ws(s))
}

/// The leading run of non-white-space characters of `s`.
pub open spec fn take_word(s: Seq<char>) -> Seq<char>
    decreases s.len(),
{
    if s.len() > 0 && !is_ws(s[0]) {
        seq![s[0]] + take_word(s.drop_first())
    } else {
        seq![]
    }
}

/// Index of the first `'\n'` at or after `p`, or the length.
pub open spec fn line_end(s: Seq<char>, p: int) -> int
    decreases s.len() - p,
{
    if p < 0 || p >= s.len() {
        s.len() as int
    } else if s[p] == '\n' {
        p
    } else {
        line_end(s, p + 1)
    }
}

/// Index of the first non-white-space character at or after `p`.
pub open spec fn ws_end(s: Seq<char>, p: int) -> int
    decreases s.len() - p,
{
    if p < 0 || p >= s.len() {
        s.len() as int
    } else if is_ws(s[p]) {
        ws_end(s, p + 1)
    } else {
        p
    }
}

/// Index of the first white-space character at or after `p`.
pub open spec fn word_end(s: Seq<char>, p: int) -> int
    decreases s.len() - p,
{
    if p < 0 || p >= s.len() {
        s.len() as int
    } else if is_ws(s[p]) {
        p
    } else {
        word_end(s, p + 1)
    }
}

pub proof fn lemma_ws_end(s: Seq<char>, p: int)
    requires
        0 <= p <= s.len(),
    ensures
        p <= ws_end(s, p) <= s.len(),
        skip_ws(s.skip(p)) == s.skip(ws_end(s, p)),
    decreases s.len() - p,
{
    if p < s.len() {
        assert(s.skip(p)[0] == s[p]);
        if is_ws(s[p]) {
            lemma_ws_end(s, p + 1);
            assert(s.skip(p).drop_first() =~= s.skip(p + 1));
        }
    } else {
        assert(s.skip(p).len() == 0);
    }
}

pub proof fn lemma_word_end(s: Seq<char>, p: int)
    requires
        0 <= p <= s.len(),
    ensures
        p <= word_end(s, p) <= s.len(),
        take_word(s.skip(p)) == s.subrange(p, word_end(s, p)),
    decreases s.len() - p,
{
    if p < s.len() {
        assert(s.skip(p)[0] == s[p]);
        if !is_ws(s[p]) {
            lemma_word_end(s, p + 1);
            assert(s.skip(p).drop_first() =~= s.skip(p + 1));
            assert(seq![s[p]] + s.subrange(p + 1, word_end(s, p + 1)) =~= s.subrange(
                p,
                word_end(s, p),
            ));
        } else {
            assert(s.subrange(p, p) =~= Seq::<char>::empty());
        }
    } else {
        assert(s.subrange(p, p) =~= Seq::<char>::empty());
    }
}

/// Index of the first `'\n'` in `s` at or after `p` (or its length).
pub fn find_line_end(s: &str, p: usize) -> (r: usize)
    requires
        p <= s@.len(),
    ensures
        r == line_end(s@, p as int),
        p <= r <= s@.len(),
{
    let n = s.unicode_len();
    let mut i = p;
    while i < n
        invariant
            n == s@.len(),
            p <= i <= n,
            line_end(s@, p as int) == line_end(s@, i as int),
        decreases n - i,
    {
        if s.get_char(i) == '\n' {
            return i;
        }
        i += 1;
    }
    i
}

fn find_ws_end(s: &str, p: usize) -> (r: usize)
    requires
        p <= s@.len(),
    ensures
        r == ws_end(s@, p as int),
        p <= r <= s@.len(),
{
    let n = s.unicode_len();
    let mut i = p;
    while i < n
        invariant
            n == s@.len(),
            p <= i <= n,
            ws_end(s@, p as int) == ws_end(s@, i as int),
        decreases n - i,
    {
        if !is_ws_char(s.get_char(i)) {
            return i;
        }
        i += 1;
    }
    i
}

fn find_word_end(s: &str, p: usize) -> (r: usize)
    requires
        p <= s@.len(),
    ensures
        r == word_end(s@, p as int),
        p <= r <= s@.len(),
{
    let n = s.unicode_len();
    let mut i = p;
    while i < n
        invariant
            n == s@.len(),
            p <= i <= n,
            word_end(s@, p as int) == word_end(s@, i as int),
        decreases n - i,
    {
        if is_ws_char(s.get_char(i)) {
            return i;
        }
        i += 1;
    }
    i
}

/// `s` with leading and trailing white space removed.
pub fn trim_str(s: &str) -> (r: &str)
    ensures
        r@ == trim(s@),
{
    let n = s.unicode_len();
    let start = find_ws_end(s, 0);
    proof {
        lemma_ws_end(s@, 0);
        assert(s@.skip(0) =~= s@);
    }
    let mut end = n;
    let ghost t = s@.skip(start as int);
    assert(t.take(t.len() as int) =~= t);
    while end > start && is_ws_char(s.get_char(end - 1))
        invariant
            n == s@.len(),
            start <= end <= n,
            t == s@.skip(start as int),
            trim_end(t) == trim_end(t.take(end - start)),
        decreases end,
    {
        let ghost u = t.take(end - start);
        assert(u.last() == s@[end - 1]);
        assert(u.drop_last() =~= t.take(end - 1 - start));
        end -= 1;
    }
    let ghost u = t.take(end - start);
    proof {
        if end > start {
            assert(u.last() == s@[end - 1]);
        }
    }
    assert(u =~= s@.subrange(start as int, end as int));
    s.substring_char(start, end)
}

/// The second white-space separated field of a line, if it has one.
pub open spec fn second_field(line: Seq<char>) -> Option<Seq<char>> {
    let a = skip_ws(line);
    let rest = skip_ws(a.skip(take_word(a).len() as int));
    if take_word(rest).len() > 0 {
        Some(take_word(rest))
    } else {
        None
    }
}

/// The second field of `line`, if any.
pub fn second_field_str(line: &str) -> (r: Option<&str>)
    ensures
        match r {
            Some(f) => second_field(line@) == Some(f@),
            None => second_field(line@) is None,
        },
{
    let ghost l = line@;
    let a = find_ws_end(line, 0);
    let b = find_word_end(line, a);
    let c = find_ws_end(line, b);
    let d = find_word_end(line, c);
    proof {
        lemma_ws_end(l, 0);
        assert(l.skip(0) =~= l);
        let sa = l.skip(a as int);
        lemma_word_end(l, a as int);
        assert(take_word(sa).len() == b - a);
        assert(sa.skip(b - a) =~= l.skip(b as int));
        lemma_ws_end(l, b as int);
        lemma_word_end(l, c as int);
    }
    if d > c {
        Some(line.substring_char(c, d))
    } else {
        None
    }
}

/// Some line of `s` at or after `p` has `path` as its second field.
pub open spec fn mounted_from(s: Seq<char>, path: Seq<char>, p: int) -> bool
    decreases s.len() - p,
{
    if p < 0 || p >= s.len() {
        false
    } else {
        let q = line_end(s, p);
        proof {
            lemma_line_end_bounds(s, p);
        }
        second_field(s.subrange(p, q)) == Some(path) || (q < s.len() && mounted_from(
            s,
            path,
            q + 1,
        ))
    }
}

pub proof fn lemma_line_end_bounds(s: Seq<char>, p: int)
    requires
        0 <= p <= s.len(),
    ensures
        p <= line_end(s, p) <= s.len(),
        line_end(s, p) < s.len() ==> s[line_end(s, p)] == '\n',
    decreases s.len() - p,
{
    if p < s.len() && s[p] != '\n' {
        lemma_line_end_bounds(s, p + 1);
    }
}

/// Whether a mount table (the text of `/proc/mounts`) lists a mount at
/// `path`: some line's second field is `path`.
pub fn mount_ok(mounts: &str, path: &str) -> (r: bool)
    ensures
        r == mounted_from(mounts@, path@, 0),
{
    let n = mounts.unicode_len();
    let mut p: usize = 0;
    while p < n
        invariant
            n == mounts@.len(),
            p <= n,
            mounted_from(mounts@, path@, 0) == mounted_from(mounts@, path@, p as int),
        decreases n - p,
    {
        let q = find_line_end(mounts, p);
        proof {
            lemma_line_end_bounds(mounts@, p as int);
        }
        let line = mounts.substring_char(p, q);
        match second_field_str(line) {
            Some(f) => {
                if crate::text::str_eq(f, path) {
                    return true;
                }
            },
            None => {},
        }
        if q >= n {
            return false;
        }
        p = q + 1;
    }
    false
}

} // verus!
