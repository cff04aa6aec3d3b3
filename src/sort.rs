//! Sorting by a total preorder that each record type states for itself.

use vstd::multiset::Multiset;
use vstd::prelude::*;

verus! {

broadcast use vstd::seq_lib::group_to_multiset_ensures;

/// A type with an order for listings: `before(a, b)` says that `a` may be
/// listed ahead of `b`. The order is total and transitive; ties are allowed.
pub trait Ranked: Sized {
    spec fn before(&self, other: &Self) -> bool;

    fn ranks_before(&self, other: &Self) -> (r: bool)
        ensures
            r == self.before(other),
    ;

    proof fn lemma_before_total(a: &Self, b: &Self)
        ensures
            a.before(b) || b.before(a),
    ;

    proof fn lemma_before_transitive(a: &Self, b: &Self, c: &Self)
        requires
            a.before(b),
            b.before(c),
        ensures
            a.before(c),
    ;
}

/// Every element may be listed ahead of every later one.
pub open spec fn sorted_by_rank<T: Ranked>(s: Seq<T>) -> bool {
    forall|i: int, j: int| 0 <= i < j < s.len() ==> s[i].before(&s[j])
}

/// The elements of `v`, in listing order.
pub fn sort_ranked<T: Ranked>(v: Vec<T>) -> (r: Vec<T>)
    ensures
        r@.to_multiset() == v@.to_multiset(),
        sorted_by_rank(r@),
{
    let mut rest = v;
    let mut out: Vec<T> = Vec::new();
    while rest.len() > 0
        invariant
            out@.to_multiset().add(rest@.to_multiset()) == v@.to_multiset(),
            sorted_by_rank(out@),
        decreases rest@.len(),
    {
        let ghost before_pop = rest@;
        let x = rest.pop().unwrap();
        assert(before_pop == rest@.push(x));
        let mut p: usize = 0;
        while p < out.len() && out[p].ranks_before(&x)
            invariant
                p <= out@.len(),
                forall|i: int| 0 <= i < p ==> out@[i].before(&x),
            decreases out@.len() - p,
        {
            p = p + 1;
        }
        let ghost old_out = out@;
        proof {
            assert forall|i: int| p <= i < old_out.len() implies x.before(&old_out[i]) by {
                T::lemma_before_total(&old_out[p as int], &x);
                if i > p {
                    T::lemma_before_transitive(&x, &old_out[p as int], &old_out[i]);
                }
            }
        }
        out.insert(p, x);
        proof {
            let n = out@;
            assert(n == old_out.insert(p as int, x));
            assert forall|i: int, j: int| 0 <= i < j < n.len() implies n[i].before(&n[j]) by {
                if j < p {
                } else if j == p {
                } else if i < p {
                    T::lemma_before_transitive(&n[i], &x, &n[j]);
                } else if i == p {
                } else {
                }
            }
            assert(out@.to_multiset() == old_out.to_multiset().insert(x));
            assert(before_pop.to_multiset() == rest@.to_multiset().insert(x));
            assert(out@.to_multiset().add(rest@.to_multiset()) =~= old_out.to_multiset().add(
                before_pop.to_multiset(),
            ));
        }
    }
    assert(rest@.to_multiset() =~= Multiset::empty());
    assert(out@.to_multiset().add(rest@.to_multiset()) =~= out@.to_multiset());
    out
}

} // verus!
