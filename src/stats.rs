//! Extremes of a sample, and their positions.
//!
//! `min` and `max` fold the sample from its first element; an operand that is
//! not ordered even with itself (NaN) gives way to the other one, so a NaN
//! only comes out when every element is one.
//!
//! `imin` and `imax` go left to right and move to a new position only when the
//! element there compares strictly beyond the one held, so ties keep the
//! earliest position and an element that compares with nothing (NaN) is
//! passed over, unless it stands first.

use crate::ord::{is_unordered, is_unordered_exec};
use core::cmp::Ordering;
use vstd::prelude::*;
use vstd::std_specs::cmp::PartialOrdSpec;

verus! {

/// The smaller of two values; an unordered operand gives way to the other.
pub open spec fn lesser<F: PartialOrd>(p: F, q: F) -> F {
    if is_unordered(p) {
        q
    } else if is_unordered(q) {
        p
    } else if q.partial_cmp_spec(&p) == Some(Ordering::Less) {
        q
    } else {
        p
    }
}

/// The greater of two values; an unordered operand gives way to the other.
pub open spec fn greater<F: PartialOrd>(p: F, q: F) -> F {
    if is_unordered(p) {
        q
    } else if is_unordered(q) {
        p
    } else if q.partial_cmp_spec(&p) == Some(Ordering::Greater) {
        q
    } else {
        p
    }
}

/// The minimum of the first `n` elements, folded from the first one.
pub open spec fn min_prefix<F: PartialOrd>(s: Seq<F>, n: int) -> F
    decreases n,
{
    if n <= 1 {
        s[0]
    } else {
        lesser(min_prefix(s, n - 1), s[n - 1])
    }
}

/// The maximum of the first `n` elements, folded from the first one.
pub open spec fn max_prefix<F: PartialOrd>(s: Seq<F>, n: int) -> F
    decreases n,
{
    if n <= 1 {
        s[0]
    } else {
        greater(max_prefix(s, n - 1), s[n - 1])
    }
}

/// When one of the first `n` elements is ordered with itself (is not NaN), so
/// are the minimum and the maximum of those elements: NaN is passed over.
pub proof fn lemma_extremes_pass_over_unordered<F: PartialOrd>(s: Seq<F>, n: int, k: int)
    requires
        0 <= k < n <= s.len(),
        !is_unordered(s[k]),
    ensures
        !is_unordered(min_prefix(s, n)),
        !is_unordered(max_prefix(s, n)),
    decreases n,
{
    if n > 1 && k < n - 1 {
        lemma_extremes_pass_over_unordered(s, n - 1, k);
    }
}

fn lesser_exec<F: PartialOrd + Copy>(p: F, q: F) -> (r: F)
    ensures
        r == p || r == q,
        F::obeys_partial_cmp_spec() ==> r == lesser(p, q),
{
    if is_unordered_exec(&p) {
        q
    } else if is_unordered_exec(&q) {
        p
    } else if q < p {
        q
    } else {
        p
    }
}

fn greater_exec<F: PartialOrd + Copy>(p: F, q: F) -> (r: F)
    ensures
        r == p || r == q,
        F::obeys_partial_cmp_spec() ==> r == greater(p, q),
{
    if is_unordered_exec(&p) {
        q
    } else if is_unordered_exec(&q) {
        p
    } else if q > p {
        q
    } else {
        p
    }
}

/// Minimum value of the samples.
pub fn min<F: PartialOrd + Copy>(s: &[F]) -> (r: F)
    requires
        s@.len() >= 1,
    ensures
        s@.contains(r),
        F::obeys_partial_cmp_spec() ==> r == min_prefix(s@, s@.len() as int),
{
    let mut m = s[0];
    let mut j: usize = 1;
    while j < s.len()
        invariant
            1 <= j <= s@.len(),
            s@.contains(m),
            F::obeys_partial_cmp_spec() ==> m == min_prefix(s@, j as int),
        decreases s@.len() - j,
    {
        m = lesser_exec(m, s[j]);
        j = j + 1;
    }
    m
}

/// Maximum value of the samples.
pub fn max<F: PartialOrd + Copy>(s: &[F]) -> (r: F)
    requires
        s@.len() >= 1,
    ensures
        s@.contains(r),
        F::obeys_partial_cmp_spec() ==> r == max_prefix(s@, s@.len() as int),
{
    let mut m = s[0];
    let mut j: usize = 1;
    while j < s.len()
        invariant
            1 <= j <= s@.len(),
            s@.contains(m),
            F::obeys_partial_cmp_spec() ==> m == max_prefix(s@, j as int),
        decreases s@.len() - j,
    {
        m = greater_exec(m, s[j]);
        j = j + 1;
    }
    m
}

/// The position that the scan for the minimum holds after the first `n` elements.
pub open spec fn argmin_prefix<F: PartialOrd>(s: Seq<F>, n: int) -> int
    decreases n,
{
    if n <= 1 {
        0
    } else {
        let i = argmin_prefix(s, n - 1);
        if s[i].partial_cmp_spec(&s[n - 1]) == Some(Ordering::Greater) {
            n - 1
        } else {
            i
        }
    }
}

/// The position that the scan for the maximum holds after the first `n` elements.
pub open spec fn argmax_prefix<F: PartialOrd>(s: Seq<F>, n: int) -> int
    decreases n,
{
    if n <= 1 {
        0
    } else {
        let i = argmax_prefix(s, n - 1);
        if s[n - 1].partial_cmp_spec(&s[i]) == Some(Ordering::Greater) {
            n - 1
        } else {
            i
        }
    }
}

/// Index of the minimum of the samples: the earliest of the smallest ones.
pub fn imin<F: PartialOrd>(s: &[F]) -> (r: usize)
    requires
        s@.len() >= 1,
    ensures
        r < s@.len(),
        F::obeys_partial_cmp_spec() ==> r == argmin_prefix(s@, s@.len() as int),
{
    let mut i: usize = 0;
    let mut j: usize = 1;
    while j < s.len()
        invariant
            1 <= j <= s@.len(),
            i < j,
            F::obeys_partial_cmp_spec() ==> i == argmin_prefix(s@, j as int),
        decreases s@.len() - j,
    {
        if s[i] > s[j] {
            i = j;
        }
        j = j + 1;
    }
    i
}

/// Index of the maximum of the samples: the earliest of the largest ones.
pub fn imax<F: PartialOrd>(s: &[F]) -> (r: usize)
    requires
        s@.len() >= 1,
    ensures
        r < s@.len(),
        F::obeys_partial_cmp_spec() ==> r == argmax_prefix(s@, s@.len() as int),
{
    let mut i: usize = 0;
    let mut j: usize = 1;
    while j < s.len()
        invariant
            1 <= j <= s@.len(),
            i < j,
            F::obeys_partial_cmp_spec() ==> i == argmax_prefix(s@, j as int),
        decreases s@.len() - j,
    {
        if s[j] > s[i] {
            i = j;
        }
        j = j + 1;
    }
    i
}

} // verus!
