//! Numeric building blocks over fixed-size arrays and flat buffers.

mod array;
mod matrix;
mod ord;
mod stats;
mod vector;
mod view;

pub use crate::array::{
    array_add_generic, array_scale_generic, array_sub_generic, can_add, can_scale, can_sub,
    is_difference, is_product, is_sum, ArrayMathExt,
};
pub use crate::view::{
    all_triples, chunks_of, flat_at, flatten3, lemma_chunks_flatten, lemma_flatten_chunks,
    lemma_update_shared, ravel, rows_of, set_flat_at, set_tuple_at, to_3d, tuple_at,
};
pub use crate::ord::{belongs_after, is_sorted_total, is_unordered, precedes, sort_total, SortByExt};
pub use crate::stats::{
    argmax_prefix, argmin_prefix, greater, imax, imin, lemma_extremes_pass_over_unordered, lesser, max, max_prefix, min, min_prefix,
};
pub use crate::matrix::{distance_matrix_with, is_square};
pub use crate::vector::{
    can_scaled_sum, is_negation, is_scaled_sum, vecadd, veccpy, vecdiff, vecncpy, vecscale,
};
