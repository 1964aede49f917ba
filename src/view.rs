//! Two shapes of one buffer: a flat run of scalars, and a run of 3-tuples.
//!
//! Tuple `i` of a flat buffer is made of its elements `3 * i`, `3 * i + 1` and
//! `3 * i + 2`. The accessors here compute those positions, so reading or
//! writing a tuple reads or writes the flat buffer itself, with no copy.
//! `to_3d` and `ravel` are the copying conversions between the two shapes.

use vstd::prelude::*;

verus! {

/// The tuples of a flat buffer: element `k` is component `k % 3` of tuple `k / 3`.
pub open spec fn chunks_of<T>(flat: Seq<T>) -> Seq<Seq<T>> {
    Seq::new((flat.len() / 3) as nat, |i: int| flat.subrange(3 * i, 3 * i + 3))
}

/// The flat buffer that holds the given tuples one after another.
pub open spec fn flatten3<T>(rows: Seq<Seq<T>>) -> Seq<T> {
    Seq::new(3 * rows.len(), |k: int| rows[k / 3][k % 3])
}

/// Each array of `tuples` as a sequence of its components.
pub open spec fn rows_of<T>(tuples: Seq<[T; 3]>) -> Seq<Seq<T>> {
    tuples.map_values(|t: [T; 3]| t@)
}

/// Every row holds exactly three components.
pub open spec fn all_triples<T>(rows: Seq<Seq<T>>) -> bool {
    forall|i: int| 0 <= i < rows.len() ==> (#[trigger] rows[i]).len() == 3
}

/// Tuple `i` of a flat buffer lies inside the buffer.
proof fn lemma_tuple_in_bounds(len: int, i: int)
    requires
        len % 3 == 0,
        0 <= i < len / 3,
    ensures
        3 * i + 3 <= len,
{
}

/// Reads tuple `i` of a flat buffer.
pub fn tuple_at<T: Copy>(flat: &[T], i: usize) -> (t: [T; 3])
    requires
        flat@.len() % 3 == 0,
        i < flat@.len() / 3,
    ensures
        t@ == chunks_of(flat@)[i as int],
{
    let len = flat.len();
    proof {
        lemma_tuple_in_bounds(len as int, i as int);
    }
    let t = [flat[3 * i], flat[3 * i + 1], flat[3 * i + 2]];
    assert(t@ =~= flat@.subrange(3 * i as int, 3 * i as int + 3));
    t
}

/// Writes tuple `i` of a flat buffer: its three elements take the values of `t`.
pub fn set_tuple_at<T: Copy>(flat: &mut [T], i: usize, t: [T; 3])
    requires
        old(flat)@.len() % 3 == 0,
        i < old(flat)@.len() / 3,
    ensures
        final(flat)@.len() == old(flat)@.len(),
        chunks_of(final(flat)@) == chunks_of(old(flat)@).update(i as int, t@),
        forall|k: int|
            0 <= k < old(flat)@.len() && k / 3 != i ==> #[trigger] final(flat)@[k] == old(flat)@[k],
{
    let len = flat.len();
    proof {
        lemma_tuple_in_bounds(len as int, i as int);
    }
    flat[3 * i] = t[0];
    flat[3 * i + 1] = t[1];
    flat[3 * i + 2] = t[2];
    let ghost before = chunks_of(old(flat)@);
    let ghost after = chunks_of(flat@);
    assert(after[i as int] =~= t@);
    assert forall|j: int| 0 <= j < after.len() && j != i implies after[j] == before[j] by {
        assert(after[j] =~= before[j]);
    }
    assert(after =~= before.update(i as int, t@));
}

/// Reads element `k` of the flat run of a sequence of tuples.
pub fn flat_at<T: Copy>(tuples: &[[T; 3]], k: usize) -> (v: T)
    requires
        k < 3 * tuples@.len(),
    ensures
        v == flatten3(rows_of(tuples@))[k as int],
        v == tuples@[k as int / 3]@[k as int % 3],
{
    tuples[k / 3][k % 3]
}

/// Writes element `k` of the flat run of a sequence of tuples: that is
/// component `k % 3` of tuple `k / 3`.
pub fn set_flat_at<T: Copy>(tuples: &mut [[T; 3]], k: usize, v: T)
    requires
        k < 3 * old(tuples)@.len(),
    ensures
        final(tuples)@.len() == old(tuples)@.len(),
        flatten3(rows_of(final(tuples)@)) == flatten3(rows_of(old(tuples)@)).update(k as int, v),
        rows_of(final(tuples)@) == rows_of(old(tuples)@).update(
            k as int / 3,
            old(tuples)@[k as int / 3]@.update(k as int % 3, v),
        ),
{
    let i = k / 3;
    let mut t = tuples[i];
    t[k % 3] = v;
    tuples[i] = t;
    let ghost before = rows_of(old(tuples)@);
    let ghost after = rows_of(tuples@);
    assert(after =~= before.update(i as int, old(tuples)@[i as int]@.update(k as int % 3, v)));
    assert(flatten3(after) =~= flatten3(before).update(k as int, v));
}

/// Copies a flat buffer into a vector of tuples, in order.
pub fn to_3d<T: Copy>(flat: &[T]) -> (r: Vec<[T; 3]>)
    requires
        flat@.len() % 3 == 0,
    ensures
        rows_of(r@) == chunks_of(flat@),
        flatten3(rows_of(r@)) == flat@,
{
    let n = flat.len() / 3;
    let mut r: Vec<[T; 3]> = Vec::with_capacity(n);
    let mut i: usize = 0;
    while i < n
        invariant
            n == flat@.len() / 3,
            flat@.len() % 3 == 0,
            i <= n,
            r@.len() == i,
            forall|j: int| 0 <= j < i ==> (#[trigger] r@[j])@ == chunks_of(flat@)[j],
        decreases n - i,
    {
        let t = tuple_at(flat, i);
        r.push(t);
        i = i + 1;
    }
    assert(rows_of(r@) =~= chunks_of(flat@));
    proof {
        lemma_flatten_chunks(flat@);
    }
    r
}

/// Copies the components of a sequence of tuples into one flat vector, in order.
pub fn ravel<T: Copy>(tuples: &[[T; 3]]) -> (r: Vec<T>)
    requires
        3 * tuples@.len() <= usize::MAX,
    ensures
        r@ == flatten3(rows_of(tuples@)),
{
    let n = tuples.len();
    let mut r: Vec<T> = Vec::with_capacity(3 * n);
    let mut i: usize = 0;
    while i < n
        invariant
            n == tuples@.len(),
            i <= n,
            r@.len() == 3 * i,
            forall|k: int| 0 <= k < 3 * i ==> #[trigger] r@[k] == tuples@[k / 3]@[k % 3],
        decreases n - i,
    {
        let t = tuples[i];
        r.push(t[0]);
        r.push(t[1]);
        r.push(t[2]);
        i = i + 1;
    }
    assert(r@ =~= flatten3(rows_of(tuples@)));
    r
}

/// Splitting a flat buffer whose length is a multiple of three into tuples and
/// laying the tuples out again gives back the buffer.
pub proof fn lemma_flatten_chunks<T>(flat: Seq<T>)
    requires
        flat.len() % 3 == 0,
    ensures
        flatten3(chunks_of(flat)) == flat,
{
    assert(flatten3(chunks_of(flat)) =~= flat);
}

/// Laying tuples of three out flat and splitting the result again gives back
/// the tuples.
pub proof fn lemma_chunks_flatten<T>(rows: Seq<Seq<T>>)
    requires
        all_triples(rows),
    ensures
        chunks_of(flatten3(rows)) == rows,
{
    let c = chunks_of(flatten3(rows));
    assert forall|i: int| 0 <= i < rows.len() implies c[i] == rows[i] by {
        assert(rows[i].len() == 3);
        assert(c[i] =~= rows[i]);
    }
    assert(c =~= rows);
}

/// Changing element `k` of a flat buffer changes component `k % 3` of tuple
/// `k / 3` and nothing else; changing a component of a tuple changes the
/// matching flat element and nothing else.
pub proof fn lemma_update_shared<T>(flat: Seq<T>, k: int, v: T)
    requires
        flat.len() % 3 == 0,
        0 <= k < flat.len(),
    ensures
        chunks_of(flat.update(k, v)) == chunks_of(flat).update(
            k / 3,
            chunks_of(flat)[k / 3].update(k % 3, v),
        ),
        flatten3(chunks_of(flat).update(k / 3, chunks_of(flat)[k / 3].update(k % 3, v)))
            == flat.update(k, v),
{
    let lhs = chunks_of(flat.update(k, v));
    let rhs = chunks_of(flat).update(k / 3, chunks_of(flat)[k / 3].update(k % 3, v));
    assert forall|i: int| 0 <= i < lhs.len() implies lhs[i] == rhs[i] by {
        assert(lhs[i] =~= rhs[i]);
    }
    assert(lhs =~= rhs);
    assert(flatten3(rhs) =~= flat.update(k, v));
}

} // verus!
