//! Sorting floats under a total order.
//!
//! Numbers compare by value; a NaN (a value that is not ordered even with
//! itself) equals every other NaN and is greater than every number.
//!
//! The order is stated over the scalar's `partial_cmp` specification, so the
//! clauses on it hold for types whose comparison follows that specification;
//! that the sort keeps the elements holds for every type.

use core::cmp::Ordering;
use vstd::prelude::*;
use vstd::std_specs::cmp::PartialOrdSpec;

verus! {

/// `a` is not ordered with itself: for a float, `a` is NaN.
pub open spec fn is_unordered<F: PartialOrd>(a: F) -> bool {
    a.partial_cmp_spec(&a) is None
}

/// `a` comes strictly before `b`: `a` is a number, and `b` is NaN or greater than `a`.
pub open spec fn precedes<F: PartialOrd>(a: F, b: F) -> bool {
    !is_unordered(a) && (is_unordered(b) || a.partial_cmp_spec(&b) == Some(Ordering::Less))
}

/// `a` belongs strictly after `b`.
pub open spec fn belongs_after<F: PartialOrd>(a: F, b: F) -> bool {
    precedes(b, a) && !precedes(a, b)
}

/// No element belongs strictly after its right neighbour. For a total order,
/// as on floats, this puts every pair of elements in order.
pub open spec fn is_sorted_total<F: PartialOrd>(s: Seq<F>) -> bool {
    forall|k: int| 0 <= k < s.len() - 1 ==> !belongs_after(#[trigger] s[k], s[k + 1])
}

/// Tells whether `a` is not ordered with itself.
pub(crate) fn is_unordered_exec<F: PartialOrd>(a: &F) -> (r: bool)
    ensures
        F::obeys_partial_cmp_spec() ==> r == is_unordered(*a),
{
    a.partial_cmp(a).is_none()
}

/// Tells whether `a` comes strictly before `b`.
fn precedes_exec<F: PartialOrd>(a: &F, b: &F) -> (r: bool)
    ensures
        F::obeys_partial_cmp_spec() ==> r == precedes(*a, *b),
{
    if is_unordered_exec(a) {
        false
    } else if is_unordered_exec(b) {
        true
    } else {
        a < b
    }
}

/// Tells whether `a` belongs strictly after `b`.
fn belongs_after_exec<F: PartialOrd>(a: &F, b: &F) -> (r: bool)
    ensures
        F::obeys_partial_cmp_spec() ==> r == belongs_after(*a, *b),
{
    precedes_exec(b, a) && !precedes_exec(a, b)
}

/// Exchanging two neighbours keeps the elements of a sequence.
proof fn lemma_swap_keeps_elements<F>(s: Seq<F>, j: int)
    requires
        0 < j < s.len(),
    ensures
        s.update(j - 1, s[j]).update(j, s[j - 1]).to_multiset() == s.to_multiset(),
{
    broadcast use vstd::seq_lib::group_to_multiset_ensures;

    let t = s.update(j - 1, s[j]).update(j, s[j - 1]);
    assert(t.remove(j - 1) =~= s.remove(j));
    assert(t.to_multiset().remove(t[j - 1]) == s.to_multiset().remove(s[j]));
    assert(t.to_multiset().contains(s[j]));
    assert(s.to_multiset().contains(s[j]));
    assert(t.to_multiset() =~= s.to_multiset());
}

/// Sorts a slice in place under the total order, keeping equal elements in
/// their first order.
pub fn sort_total<F: PartialOrd + Copy>(s: &mut [F])
    ensures
        final(s)@.to_multiset() == old(s)@.to_multiset(),
        F::obeys_partial_cmp_spec() ==> is_sorted_total(final(s)@),
        F::obeys_partial_cmp_spec() && is_sorted_total(old(s)@) ==> final(s)@ == old(s)@,
{
    let n = s.len();
    let mut i: usize = 1;
    while i < n
        invariant
            s@.len() == n,
            s@.to_multiset() == old(s)@.to_multiset(),
            F::obeys_partial_cmp_spec() ==> forall|k: int|
                0 <= k && k + 1 < i && k + 1 < n ==> !belongs_after(#[trigger] s@[k], s@[k + 1]),
            F::obeys_partial_cmp_spec() && is_sorted_total(old(s)@) ==> s@ == old(s)@,
        decreases n - i,
    {
        let mut j: usize = i;
        while j > 0 && belongs_after_exec(&s[j - 1], &s[j])
            invariant
                s@.len() == n,
                0 <= j <= i < n,
                s@.to_multiset() == old(s)@.to_multiset(),
                F::obeys_partial_cmp_spec() ==> forall|k: int|
                    0 <= k < i && k + 1 != j ==> !belongs_after(#[trigger] s@[k], s@[k + 1]),
                F::obeys_partial_cmp_spec() && 0 < j < i ==> !belongs_after(s@[j - 1], s@[j + 1]),
                F::obeys_partial_cmp_spec() && is_sorted_total(old(s)@) ==> s@ == old(s)@ && j == i,
            decreases j,
        {
            let a = s[j - 1];
            let b = s[j];
            proof {
                lemma_swap_keeps_elements(s@, j as int);
            }
            s[j - 1] = b;
            s[j] = a;
            j = j - 1;
        }
        i = i + 1;
    }
}

/// Provides a method for sorting a sequence of floats in place.
pub trait SortByExt<F: PartialOrd>: View<V = Seq<F>> {
    /// Sorts by float value: numbers in ascending order, then every NaN.
    fn sort_by_float(&mut self)
        ensures
            final(self)@.to_multiset() == old(self)@.to_multiset(),
            F::obeys_partial_cmp_spec() ==> is_sorted_total(final(self)@),
            F::obeys_partial_cmp_spec() && is_sorted_total(old(self)@) ==> final(self)@ == old(
                self,
            )@,
    ;
}

impl<F: PartialOrd + Copy> SortByExt<F> for [F] {
    fn sort_by_float(&mut self) {
        sort_total(self);
    }
}

} // verus!
