//! Component-wise arithmetic on fixed-size arrays.
//!
//! The scalar type is left generic: every component of a result is whatever the
//! scalar's own operator returns for the matching components of the operands.

use core::ops::{Add, Mul, Sub};
use vstd::prelude::*;

verus! {

/// `r` is a value that the scalar type's addition returns for `a + b`.
pub open spec fn is_sum<F: Add<Output = F>>(a: F, b: F, r: F) -> bool {
    call_ensures(F::add, (a, b), r)
}

/// `r` is a value that the scalar type's subtraction returns for `a - b`.
pub open spec fn is_difference<F: Sub<Output = F>>(a: F, b: F, r: F) -> bool {
    call_ensures(F::sub, (a, b), r)
}

/// `r` is a value that the scalar type's multiplication returns for `a * b`.
pub open spec fn is_product<F: Mul<Output = F>>(a: F, b: F, r: F) -> bool {
    call_ensures(F::mul, (a, b), r)
}

/// Every pair of matching components of `x` and `y` may be added.
pub open spec fn can_add<F: Add<Output = F>>(x: Seq<F>, y: Seq<F>) -> bool {
    forall|i: int| 0 <= i < x.len() ==> call_requires(F::add, (#[trigger] x[i], y[i]))
}

/// Every pair of matching components of `x` and `y` may be subtracted.
pub open spec fn can_sub<F: Sub<Output = F>>(x: Seq<F>, y: Seq<F>) -> bool {
    forall|i: int| 0 <= i < x.len() ==> call_requires(F::sub, (#[trigger] x[i], y[i]))
}

/// Every component of `x` may be multiplied by `c`.
pub open spec fn can_scale<F: Mul<Output = F>>(x: Seq<F>, c: F) -> bool {
    forall|i: int| 0 <= i < x.len() ==> call_requires(F::mul, (#[trigger] x[i], c))
}

/// Adds two arrays component by component: `r[i] = x[i] + y[i]`.
pub fn array_add_generic<F, const N: usize>(x: [F; N], y: [F; N]) -> (r: [F; N]) where
    F: Copy + Add<Output = F>,
    requires
        can_add(x@, y@),
    ensures
        forall|i: int| 0 <= i < N ==> is_sum(#[trigger] x@[i], y@[i], r@[i]),
{
    let mut r = x;
    let mut i: usize = 0;
    while i < N
        invariant
            i <= N,
            can_add(x@, y@),
            forall|k: int| 0 <= k < i ==> is_sum(#[trigger] x@[k], y@[k], r@[k]),
        decreases N - i,
    {
        r[i] = x[i] + y[i];
        i = i + 1;
    }
    r
}

/// Subtracts two arrays component by component: `r[i] = x[i] - y[i]`.
pub fn array_sub_generic<F, const N: usize>(x: [F; N], y: [F; N]) -> (r: [F; N]) where
    F: Copy + Sub<Output = F>,
    requires
        can_sub(x@, y@),
    ensures
        forall|i: int| 0 <= i < N ==> is_difference(#[trigger] x@[i], y@[i], r@[i]),
{
    let mut r = x;
    let mut i: usize = 0;
    while i < N
        invariant
            i <= N,
            can_sub(x@, y@),
            forall|k: int| 0 <= k < i ==> is_difference(#[trigger] x@[k], y@[k], r@[k]),
        decreases N - i,
    {
        r[i] = x[i] - y[i];
        i = i + 1;
    }
    r
}

/// Multiplies every component of an array by one value: `r[i] = x[i] * c`.
pub fn array_scale_generic<F, const N: usize>(x: [F; N], c: F) -> (r: [F; N]) where
    F: Copy + Mul<Output = F>,
    requires
        can_scale(x@, c),
    ensures
        forall|i: int| 0 <= i < N ==> is_product(#[trigger] x@[i], c, r@[i]),
{
    let mut r = x;
    let mut i: usize = 0;
    while i < N
        invariant
            i <= N,
            can_scale(x@, c),
            forall|k: int| 0 <= k < i ==> is_product(#[trigger] x@[k], c, r@[k]),
        decreases N - i,
    {
        r[i] = x[i] * c;
        i = i + 1;
    }
    r
}

/// Simple math for arrays.
pub trait ArrayMathExt<F: Copy + Add<Output = F> + Sub<Output = F> + Mul<Output = F>>: View<
    V = Seq<F>,
> + Sized {
    /// Adds two arrays. Returns x + y.
    fn array_add(self, other: Self) -> (r: Self)
        requires
            self@.len() == other@.len(),
            can_add(self@, other@),
        ensures
            r@.len() == self@.len(),
            forall|i: int| 0 <= i < self@.len() ==> is_sum(#[trigger] self@[i], other@[i], r@[i]),
    ;

    /// Subtracts two arrays. Returns x - y.
    fn array_sub(self, other: Self) -> (r: Self)
        requires
            self@.len() == other@.len(),
            can_sub(self@, other@),
        ensures
            r@.len() == self@.len(),
            forall|i: int|
                0 <= i < self@.len() ==> is_difference(#[trigger] self@[i], other@[i], r@[i]),
    ;

    /// Scales one array with a value.
    fn array_scale(self, value: F) -> (r: Self)
        requires
            can_scale(self@, value),
        ensures
            r@.len() == self@.len(),
            forall|i: int| 0 <= i < self@.len() ==> is_product(#[trigger] self@[i], value, r@[i]),
    ;
}

impl<F, const N: usize> ArrayMathExt<F> for [F; N] where
    F: Copy + Add<Output = F> + Sub<Output = F> + Mul<Output = F>,
 {
    fn array_add(self, other: Self) -> (r: Self) {
        array_add_generic(self, other)
    }

    fn array_sub(self, other: Self) -> (r: Self) {
        array_sub_generic(self, other)
    }

    fn array_scale(self, value: F) -> (r: Self) {
        array_scale_generic(self, value)
    }
}

} // verus!
