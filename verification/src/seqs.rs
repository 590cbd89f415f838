//! Small specification helpers for lists built by conditional appends.
use vstd::prelude::*;

verus! {

/// `x` when `c` holds, nothing otherwise.
pub open spec fn cond_seq<A>(c: bool, x: A) -> Seq<A> {
    if c {
        seq![x]
    } else {
        seq![]
    }
}

/// A list of four conditional entries, all different, holds each entry
/// exactly when its condition holds.
pub proof fn lemma_cond4_contains<A>(p: bool, x: A, q: bool, y: A, r: bool, z: A, t: bool, w: A)
    requires
        x != y,
        x != z,
        x != w,
        y != z,
        y != w,
        z != w,
    ensures
        (cond_seq(p, x) + cond_seq(q, y) + cond_seq(r, z) + cond_seq(t, w)).contains(x) == p,
        (cond_seq(p, x) + cond_seq(q, y) + cond_seq(r, z) + cond_seq(t, w)).contains(y) == q,
        (cond_seq(p, x) + cond_seq(q, y) + cond_seq(r, z) + cond_seq(t, w)).contains(z) == r,
        (cond_seq(p, x) + cond_seq(q, y) + cond_seq(r, z) + cond_seq(t, w)).contains(w) == t,
{
    let a = cond_seq(p, x);
    let b = cond_seq(q, y);
    let c = cond_seq(r, z);
    let d = cond_seq(t, w);
    let s = a + b + c + d;
    assert forall|i: int| 0 <= i < s.len() implies #[trigger] s[i] == x && p || s[i] == y && q || s[i] == z
        && r || s[i] == w && t by {
        if i < a.len() {
            assert(s[i] == a[i]);
        } else if i < a.len() + b.len() {
            assert(s[i] == b[i - a.len()]);
        } else if i < a.len() + b.len() + c.len() {
            assert(s[i] == c[i - a.len() - b.len()]);
        } else {
            assert(s[i] == d[i - a.len() - b.len() - c.len()]);
        }
    }
    if p {
        assert(s[0] == x);
    }
    if q {
        assert(s[a.len() as int] == y);
    }
    if r {
        assert(s[a.len() + b.len() as int] == z);
    }
    if t {
        assert(s[a.len() + b.len() + c.len() as int] == w);
    }
}

/// `1` if `b` holds, `0` otherwise.
pub open spec fn ind(b: bool) -> nat {
    if b {
        1
    } else {
        0
    }
}

} // verus!
