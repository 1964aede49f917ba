//! Symmetric matrices of pairwise values.

use vstd::prelude::*;

verus! {

/// `m` is an `n` by `n` matrix, stored by rows.
pub open spec fn is_square<D>(m: Seq<Vec<D>>, n: int) -> bool {
    &&& m.len() == n
    &&& forall|i: int| 0 <= i < n ==> (#[trigger] m[i])@.len() == n
}

/// The matrix of `dist` over every pair of points: entry `(i, j)` below the
/// diagonal is `dist(points[i], points[j])`, entry `(j, i)` is the same value,
/// and the diagonal holds `zero`. `dist` is called once for each pair.
pub fn distance_matrix_with<P, D: Copy, G: Fn(&P, &P) -> D>(
    points: &[P],
    zero: D,
    dist: G,
) -> (m: Vec<Vec<D>>)
    requires
        forall|i: int, j: int|
            0 <= j < i < points@.len() ==> #[trigger] dist.requires((&points@[i], &points@[j])),
    ensures
        is_square(m@, points@.len() as int),
        forall|i: int| 0 <= i < points@.len() ==> (#[trigger] m@[i])@[i] == zero,
        forall|i: int, j: int|
            0 <= i < points@.len() && 0 <= j < points@.len() ==> (#[trigger] m@[i])@[j] == (
            #[trigger] m@[j])@[i],
        forall|i: int, j: int|
            0 <= j < i < points@.len() ==> dist.ensures(
                (&points@[i], &points@[j]),
                #[trigger] m@[i]@[j],
            ),
{
    let n = points.len();
    // the values below the diagonal: row i holds columns 0 to i - 1
    let mut lower: Vec<Vec<D>> = Vec::with_capacity(n);
    let mut i: usize = 0;
    while i < n
        invariant
            n == points@.len(),
            i <= n,
            lower@.len() == i,
            forall|a: int, b: int|
                0 <= b < a < points@.len() ==> #[trigger] dist.requires((&points@[a], &points@[b])),
            forall|a: int| 0 <= a < i ==> (#[trigger] lower@[a])@.len() == a,
            forall|a: int, b: int|
                0 <= b < a < i ==> dist.ensures((&points@[a], &points@[b]), #[trigger] lower@[a]@[b]),
        decreases n - i,
    {
        let mut row: Vec<D> = Vec::with_capacity(i);
        let mut j: usize = 0;
        while j < i
            invariant
                n == points@.len(),
                j <= i < n,
                row@.len() == j,
                forall|a: int, b: int|
                    0 <= b < a < points@.len() ==> #[trigger] dist.requires(
                        (&points@[a], &points@[b]),
                    ),
                forall|b: int|
                    0 <= b < j ==> dist.ensures((&points@[i as int], &points@[b]), #[trigger] row@[b]),
            decreases i - j,
        {
            let d = dist(&points[i], &points[j]);
            row.push(d);
            j = j + 1;
        }
        lower.push(row);
        i = i + 1;
    }
    // mirror the lower triangle into a full matrix
    let mut m: Vec<Vec<D>> = Vec::with_capacity(n);
    let mut i: usize = 0;
    while i < n
        invariant
            n == points@.len(),
            i <= n,
            lower@.len() == n,
            m@.len() == i,
            forall|a: int| 0 <= a < n ==> (#[trigger] lower@[a])@.len() == a,
            forall|a: int| 0 <= a < i ==> (#[trigger] m@[a])@.len() == n,
            forall|a: int, b: int|
                0 <= a < i && 0 <= b < n ==> #[trigger] m@[a]@[b] == if b < a {
                    lower@[a]@[b]
                } else if a < b {
                    lower@[b]@[a]
                } else {
                    zero
                },
        decreases n - i,
    {
        let mut row: Vec<D> = Vec::with_capacity(n);
        let mut j: usize = 0;
        while j < n
            invariant
                n == points@.len(),
                i < n,
                j <= n,
                lower@.len() == n,
                forall|a: int| 0 <= a < n ==> (#[trigger] lower@[a])@.len() == a,
                row@.len() == j,
                forall|b: int|
                    0 <= b < j ==> #[trigger] row@[b] == if b < i {
                        lower@[i as int]@[b]
                    } else if i < b {
                        lower@[b]@[i as int]
                    } else {
                        zero
                    },
            decreases n - j,
        {
            if j < i {
                row.push(lower[i][j]);
            } else if i < j {
                row.push(lower[j][i]);
            } else {
                row.push(zero);
            }
            j = j + 1;
        }
        m.push(row);
        i = i + 1;
    }
    m
}

} // verus!
