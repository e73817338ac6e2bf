use vstd::prelude::*;

use crate::error::RTreeError;
use crate::rtree::{
    coords_from, dimension_from_u32, dimension_named, dimension_value, tree_in, Dimension, RTreeDim,
};

verus! {

/// Whether none of the pointers a call was handed is null; `is_null[k]`
/// tells whether the `k`-th one is.
pub open spec fn all_present(is_null: Seq<bool>) -> bool {
    forall|k: int| 0 <= k < is_null.len() ==> !is_null[k]
}

/// The check every function of the C interface makes first: a null among
/// the pointers it was handed ends the call with `NullPointer`.
pub fn check_pointers(is_null: &[bool]) -> (r: Result<(), RTreeError>)
    ensures
        r == (if all_present(is_null@) {
            Ok(())
        } else {
            Err(RTreeError::NullPointer)
        }),
        (forall|k: int| 0 <= k < is_null@.len() ==> !is_null@[k]) ==> r == Ok::<(), RTreeError>(()),
        forall|k: int| 0 <= k < is_null@.len() && is_null@[k] ==> r == Err::<(), RTreeError>(RTreeError::NullPointer),
{
    let len = is_null.len();
    let mut k: usize = 0;
    while k < len
        invariant
            k <= len,
            len == is_null@.len(),
            forall|m: int| 0 <= m < k ==> !is_null@[m],
        decreases len - k,
    {
        if is_null[k] {
            return Err(RTreeError::NullPointer);
        }
        k = k + 1;
    }
    Ok(())
}

/// The pointers of a call are all present exactly when none of them is
/// null, whatever their number: a single null pointer, wherever it stands,
/// makes them not all present.
pub proof fn lemma_all_present_exact(is_null: Seq<bool>)
    ensures
        (forall|k: int| 0 <= k < is_null.len() ==> !is_null[k]) ==> all_present(is_null),
        forall|k: int| 0 <= k < is_null.len() && #[trigger] is_null[k] ==> !all_present(is_null),
{
}

/// What a call that builds a tree (`rtree_create`, `rtree_bulk_load`) is
/// answered before it builds: `NullPointer` if a pointer is missing, else
/// `InvalidDimension` if `dim` is not 1, 2 or 3, else the dimension to
/// build the tree in.
pub open spec fn build_outcome(is_null: Seq<bool>, dim: u32) -> Result<Dimension, RTreeError> {
    if !all_present(is_null) {
        Err(RTreeError::NullPointer)
    } else {
        match dimension_named(dim) {
            Some(d) => Ok(d),
            None => Err(RTreeError::InvalidDimension),
        }
    }
}

/// The checks of `rtree_create` and `rtree_bulk_load`, in their order:
/// pointers first, then the dimension.
pub fn check_build(is_null: &[bool], dim: u32) -> (r: Result<Dimension, RTreeError>)
    ensures
        r == build_outcome(is_null@, dim),
        forall|k: int| 0 <= k < is_null@.len() && is_null@[k] ==> r == Err::<Dimension, RTreeError>(RTreeError::NullPointer),
        (forall|k: int| 0 <= k < is_null@.len() ==> !is_null@[k]) ==> (r is Ok <==> 1 <= dim <= 3),
        r matches Ok(d) ==> dimension_value(d) == dim,
{
    match check_pointers(is_null) {
        Err(e) => Err(e),
        Ok(()) => dimension_from_u32(dim),
    }
}

/// What `rtree_create` and `rtree_bulk_load` do before handing a tree out:
/// the checks of `check_build`, then, if they pass, the tree built out of
/// `input` by the maker of the dimension asked for. A tree handed out
/// reports, through `rtree_get_dimension`, exactly the number `dim`.
pub fn build_tree<A, T1, T2, T3, F1: FnOnce(A) -> T1, F2: FnOnce(A) -> T2, F3: FnOnce(A) -> T3>(
    is_null: &[bool],
    dim: u32,
    input: A,
    make1: F1,
    make2: F2,
    make3: F3,
) -> (r: Result<RTreeDim<T1, T2, T3>, RTreeError>)
    requires
        dimension_named(dim) == Some(Dimension::One) ==> make1.requires((input,)),
        dimension_named(dim) == Some(Dimension::Two) ==> make2.requires((input,)),
        dimension_named(dim) == Some(Dimension::Three) ==> make3.requires((input,)),
    ensures
        build_outcome(is_null@, dim) matches Err(e) ==> r == Err::<RTreeDim<T1, T2, T3>, RTreeError>(e),
        build_outcome(is_null@, dim) matches Ok(d) ==> (r matches Ok(t) && t.dimension_spec() == d),
        r matches Ok(t) ==> dimension_value(t.dimension_spec()) == dim,
        forall|k: int| 0 <= k < is_null@.len() && is_null@[k] ==> r == Err::<RTreeDim<T1, T2, T3>, RTreeError>(RTreeError::NullPointer),
        (forall|k: int| 0 <= k < is_null@.len() ==> !is_null@[k]) ==> (r is Ok <==> 1 <= dim <= 3),
        r matches Ok(t) ==> (t matches RTreeDim::D1(x) ==> make1.ensures((input,), x)),
        r matches Ok(t) ==> (t matches RTreeDim::D2(x) ==> make2.ensures((input,), x)),
        r matches Ok(t) ==> (t matches RTreeDim::D3(x) ==> make3.ensures((input,), x)),
{
    match check_build(is_null, dim) {
        Err(e) => Err(e),
        Ok(d) => Ok(tree_in(d, input, make1, make2, make3)),
    }
}

/// The coordinates of a query point of the given dimension: the first
/// `dim` values the caller handed over.
pub fn point_coords<T: Copy>(point: &[T], dim: Dimension) -> (r: Vec<T>)
    requires
        dimension_value(dim) <= point@.len(),
    ensures
        r@ == point@.subrange(0, dimension_value(dim) as int),
{
    coords_from(point, 0, dim.coordinates())
}

} // verus!
