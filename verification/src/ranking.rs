//! Stable ordering of ranked items.
//!
//! The engines order their outputs with a stable sort: items that rank
//! alike keep the order in which they were produced. The definition here is
//! insertion of each item, in turn, behind every item it does not rank
//! before.
use vstd::prelude::*;

verus! {

broadcast use vstd::seq_lib::group_to_multiset_ensures;

/// `x` inserted into `s` behind the last element that `x` does not rank
/// before.
pub open spec fn insert_stable<A>(s: Seq<A>, x: A, before: spec_fn(A, A) -> bool) -> Seq<A>
    decreases s.len(),
{
    if s.len() == 0 {
        seq![x]
    } else if before(x, s.last()) {
        insert_stable(s.drop_last(), x, before).push(s.last())
    } else {
        s.push(x)
    }
}

/// The stable sort of `s`: each element, in order, inserted into the
/// sorted prefix.
pub open spec fn stable_sorted<A>(s: Seq<A>, before: spec_fn(A, A) -> bool) -> Seq<A>
    decreases s.len(),
{
    if s.len() == 0 {
        s
    } else {
        insert_stable(stable_sorted(s.drop_last(), before), s.last(), before)
    }
}

/// No element ranks before an element ahead of it.
pub open spec fn ordered_by<A>(s: Seq<A>, before: spec_fn(A, A) -> bool) -> bool {
    forall|i: int, j: int| 0 <= i < j < s.len() ==> !before(#[trigger] s[j], #[trigger] s[i])
}

/// `before` is a strict weak order: asymmetric, and "does not rank before"
/// is transitive.
pub open spec fn strict_weak_order<A>(before: spec_fn(A, A) -> bool) -> bool {
    &&& forall|a: A, b: A| #[trigger] before(a, b) ==> !before(b, a)
    &&& forall|a: A, b: A, c: A|
        #![trigger before(b, a), before(c, b)]
        !before(b, a) && !before(c, b) ==> !before(c, a)
}

/// Where the scan from the back stops, the stable insertion is an
/// insertion at that position.
pub proof fn lemma_insert_at<A>(s: Seq<A>, x: A, pos: int, before: spec_fn(A, A) -> bool)
    requires
        0 <= pos <= s.len(),
        forall|m: int| pos <= m < s.len() ==> before(x, #[trigger] s[m]),
        pos == 0 || !before(x, s[pos - 1]),
    ensures
        insert_stable(s, x, before) == s.insert(pos, x),
    decreases s.len(),
{
    if s.len() == 0 {
        assert(s.insert(pos, x) =~= seq![x]);
    } else if pos == s.len() {
        assert(s.insert(pos, x) =~= s.push(x));
    } else {
        assert(before(x, s[s.len() - 1]));
        lemma_insert_at(s.drop_last(), x, pos, before);
        assert(s.drop_last().insert(pos, x).push(s.last()) =~= s.insert(pos, x));
    }
}

/// Stable insertion keeps the order and adds exactly `x`.
pub proof fn lemma_insert_stable<A>(s: Seq<A>, x: A, before: spec_fn(A, A) -> bool)
    requires
        strict_weak_order(before),
        ordered_by(s, before),
    ensures
        ordered_by(insert_stable(s, x, before), before),
        insert_stable(s, x, before).to_multiset() =~= s.to_multiset().insert(x),
    decreases s.len(),
{
    if s.len() == 0 {
        assert(seq![x] =~= Seq::<A>::empty().push(x));
    } else {
        let last = s.last();
        let init = s.drop_last();
        assert(init.push(last) =~= s);
        assert(ordered_by(init, before)) by {
            assert forall|i: int, j: int| 0 <= i < j < init.len() implies !before(
                #[trigger] init[j],
                #[trigger] init[i],
            ) by {
                assert(init[i] == s[i] && init[j] == s[j]);
            }
        }
        if before(x, last) {
            lemma_insert_stable(init, x, before);
            let ins = insert_stable(init, x, before);
            let r = ins.push(last);
            assert forall|k: int| 0 <= k < ins.len() implies !before(last, #[trigger] ins[k]) by {
                assert(ins.to_multiset().count(ins[k]) > 0);
                if ins[k] != x {
                    assert(init.to_multiset().count(ins[k]) > 0);
                    assert(init.contains(ins[k]));
                    let m = choose|m: int| 0 <= m < init.len() && init[m] == ins[k];
                    assert(s[m] == ins[k]);
                    assert(s[s.len() - 1] == last);
                }
            }
            assert forall|i: int, j: int| 0 <= i < j < r.len() implies !before(
                #[trigger] r[j],
                #[trigger] r[i],
            ) by {
                if j == r.len() - 1 {
                    assert(r[j] == last);
                    assert(r[i] == ins[i]);
                } else {
                    assert(r[i] == ins[i] && r[j] == ins[j]);
                }
            }
        } else {
            let r = s.push(x);
            assert forall|i: int, j: int| 0 <= i < j < r.len() implies !before(
                #[trigger] r[j],
                #[trigger] r[i],
            ) by {
                if j == r.len() - 1 {
                    assert(r[j] == x);
                    if i < s.len() - 1 {
                        assert(!before(s[s.len() - 1], s[i]));
                        assert(!before(x, s[s.len() - 1]));
                    }
                } else {
                    assert(r[i] == s[i] && r[j] == s[j]);
                }
            }
        }
    }
}

/// The stable sort is ordered and holds the same elements.
pub proof fn lemma_stable_sorted<A>(s: Seq<A>, before: spec_fn(A, A) -> bool)
    requires
        strict_weak_order(before),
    ensures
        ordered_by(stable_sorted(s, before), before),
        stable_sorted(s, before).to_multiset() =~= s.to_multiset(),
    decreases s.len(),
{
    if s.len() > 0 {
        lemma_stable_sorted(s.drop_last(), before);
        lemma_insert_stable(stable_sorted(s.drop_last(), before), s.last(), before);
        assert(s.drop_last().push(s.last()) =~= s);
    }
}

} // verus!
