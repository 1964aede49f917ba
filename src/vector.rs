//! In-place arithmetic on equal-length buffers.
//!
//! As for arrays, the scalar type is generic: each component of a result is
//! what the scalar's own operators return for the matching components.

use crate::array::{can_scale, can_sub, is_difference, is_product, is_sum};
use core::ops::{Add, Mul, Neg, Sub};

use vstd::prelude::*;

verus! {

/// `r` is a value that the scalar type's negation returns for `-a`.
pub open spec fn is_negation<F: Neg<Output = F>>(a: F, r: F) -> bool {
    call_ensures(F::neg, (a,), r)
}

/// `y1` is `y0 + c * x` as the scalar type computes it: the product first.
pub open spec fn is_scaled_sum<F: Add<Output = F> + Mul<Output = F>>(y0: F, c: F, x: F, y1: F) -> bool {
    exists|p: F| is_product(c, x, p) && #[trigger] is_sum(y0, p, y1)
}

/// `y0 + c * x` may be computed: the product, and the sum with any product.
pub open spec fn can_scaled_sum<F: Add<Output = F> + Mul<Output = F>>(y0: F, c: F, x: F) -> bool {
    &&& call_requires(F::mul, (c, x))
    &&& forall|p: F| is_product(c, x, p) ==> #[trigger] call_requires(F::add, (y0, p))
}

/// y += c * x, component by component.
pub fn vecadd<F: Copy + Add<Output = F> + Mul<Output = F>>(y: &mut [F], x: &[F], c: F)
    requires
        old(y)@.len() == x@.len(),
        forall|i: int| 0 <= i < x@.len() ==> can_scaled_sum(#[trigger] old(y)@[i], c, x@[i]),
    ensures
        final(y)@.len() == old(y)@.len(),
        forall|i: int|
            0 <= i < x@.len() ==> is_scaled_sum(#[trigger] old(y)@[i], c, x@[i], final(y)@[i]),
{
    let n = y.len();
    let mut i: usize = 0;
    while i < n
        invariant
            n == y@.len() == x@.len() == old(y)@.len(),
            i <= n,
            forall|k: int| 0 <= k < n ==> can_scaled_sum(#[trigger] old(y)@[k], c, x@[k]),
            forall|k: int| i <= k < n ==> #[trigger] y@[k] == old(y)@[k],
            forall|k: int| 0 <= k < i ==> is_scaled_sum(#[trigger] old(y)@[k], c, x@[k], y@[k]),
        decreases n - i,
    {
        assert(can_scaled_sum(old(y)@[i as int], c, x@[i as int]));
        let p = c * x[i];
        let s = y[i] + p;
        assert(is_sum(old(y)@[i as int], p, s));
        y[i] = s;
        i = i + 1;
    }
}

/// y *= c, component by component.
pub fn vecscale<F: Copy + Mul<Output = F>>(y: &mut [F], c: F)
    requires
        can_scale(old(y)@, c),
    ensures
        final(y)@.len() == old(y)@.len(),
        forall|i: int| 0 <= i < old(y)@.len() ==> is_product(#[trigger] old(y)@[i], c, final(y)@[i]),
{
    let n = y.len();
    let mut i: usize = 0;
    while i < n
        invariant
            n == y@.len() == old(y)@.len(),
            i <= n,
            can_scale(old(y)@, c),
            forall|k: int| i <= k < n ==> #[trigger] y@[k] == old(y)@[k],
            forall|k: int| 0 <= k < i ==> is_product(#[trigger] old(y)@[k], c, y@[k]),
        decreases n - i,
    {
        let s = y[i] * c;
        y[i] = s;
        i = i + 1;
    }
}

/// y = x.
pub fn veccpy<F: Copy>(y: &mut [F], x: &[F])
    requires
        old(y)@.len() == x@.len(),
    ensures
        final(y)@ == x@,
{
    let n = y.len();
    let mut i: usize = 0;
    while i < n
        invariant
            n == y@.len() == x@.len(),
            i <= n,
            forall|k: int| 0 <= k < i ==> #[trigger] y@[k] == x@[k],
        decreases n - i,
    {
        y[i] = x[i];
        i = i + 1;
    }
    assert(y@ =~= x@);
}

/// y = -x, component by component.
pub fn vecncpy<F: Copy + Neg<Output = F>>(y: &mut [F], x: &[F])
    requires
        old(y)@.len() == x@.len(),
        forall|i: int| 0 <= i < x@.len() ==> call_requires(F::neg, (#[trigger] x@[i],)),
    ensures
        final(y)@.len() == x@.len(),
        forall|i: int| 0 <= i < x@.len() ==> is_negation(#[trigger] x@[i], final(y)@[i]),
{
    let n = y.len();
    let mut i: usize = 0;
    while i < n
        invariant
            n == y@.len() == x@.len(),
            i <= n,
            forall|k: int| 0 <= k < n ==> call_requires(F::neg, (#[trigger] x@[k],)),
            forall|k: int| 0 <= k < i ==> is_negation(#[trigger] x@[k], y@[k]),
        decreases n - i,
    {
        y[i] = x[i].neg();
        i = i + 1;
    }
}

/// z = x - y, component by component.
pub fn vecdiff<F: Copy + Sub<Output = F>>(z: &mut [F], x: &[F], y: &[F])
    requires
        old(z)@.len() == x@.len(),
        x@.len() == y@.len(),
        can_sub(x@, y@),
    ensures
        final(z)@.len() == x@.len(),
        forall|i: int| 0 <= i < x@.len() ==> is_difference(#[trigger] x@[i], y@[i], final(z)@[i]),
{
    let n = z.len();
    let mut i: usize = 0;
    while i < n
        invariant
            n == z@.len() == x@.len() == y@.len(),
            i <= n,
            can_sub(x@, y@),
            forall|k: int| 0 <= k < i ==> is_difference(#[trigger] x@[k], y@[k], z@[k]),
        decreases n - i,
    {
        z[i] = x[i] - y[i];
        i = i + 1;
    }
}

} // verus!
