use vstd::prelude::*;

use crate::error::RTreeError;

verus! {

/// A value that only this crate can make (its field is private); it keeps
/// the opaque handle types from being built by their users.
pub struct Sealed {
    _private: (),
}

/// Opaque handle under which a tree crosses the C boundary: it is only
/// ever seen behind a pointer, and no user of the crate can build one.
pub enum RTreeH {
    /// Never built: the interface hands out pointers to its own values
    /// under this type, and only casts them back.
    Opaque(Sealed),
}

/// The number of coordinates of the points a tree is built over.
#[derive(Debug, Clone, Copy, PartialEq, Eq, Structural)]
pub enum Dimension {
    One,
    Two,
    Three,
}

/// The number of coordinates that a `Dimension` stands for.
pub open spec fn dimension_value(d: Dimension) -> nat {
    match d {
        Dimension::One => 1,
        Dimension::Two => 2,
        Dimension::Three => 3,
    }
}

/// The dimension that a number passed through the C interface names, if any:
/// only 1, 2 and 3 are accepted. (The `rstar` index behind the interface
/// builds no tree over points of one coordinate: it panics there, so a
/// request for dimension 1 passes these checks and then aborts when the
/// tree is built.)
pub open spec fn dimension_named(dim: u32) -> Option<Dimension> {
    if dim == 1 {
        Some(Dimension::One)
    } else if dim == 2 {
        Some(Dimension::Two)
    } else if dim == 3 {
        Some(Dimension::Three)
    } else {
        None
    }
}

impl Dimension {
    /// The number of coordinates, as the C interface reports it.
    pub fn value(&self) -> (v: u32)
        ensures
            v == dimension_value(*self),
    {
        match self {
            Dimension::One => 1,
            Dimension::Two => 2,
            Dimension::Three => 3,
        }
    }

    /// The number of coordinates, for indexing.
    pub fn coordinates(&self) -> (v: usize)
        ensures
            v == dimension_value(*self),
    {
        match self {
            Dimension::One => 1,
            Dimension::Two => 2,
            Dimension::Three => 3,
        }
    }
}

/// Reads a dimension passed through the C interface; anything but 1, 2 or 3
/// is refused with `InvalidDimension` (see `dimension_named` on 1).
pub fn dimension_from_u32(dim: u32) -> (r: Result<Dimension, RTreeError>)
    ensures
        r == (match dimension_named(dim) {
            Some(d) => Ok(d),
            None => Err(RTreeError::InvalidDimension),
        }),
{
    if dim == 1 {
        Ok(Dimension::One)
    } else if dim == 2 {
        Ok(Dimension::Two)
    } else if dim == 3 {
        Ok(Dimension::Three)
    } else {
        Err(RTreeError::InvalidDimension)
    }
}

/// A tree of one of the supported dimensions; `T1`, `T2` and `T3` are the
/// trees (or references into them) for points of one, two and three
/// coordinates.
#[derive(Clone, Copy)]
pub enum RTreeDim<T1, T2, T3> {
    D1(T1),
    D2(T2),
    D3(T3),
}

impl<T1, T2, T3> RTreeDim<T1, T2, T3> {
    /// The dimension of the tree held.
    pub open spec fn dimension_spec(&self) -> Dimension {
        match self {
            RTreeDim::D1(_) => Dimension::One,
            RTreeDim::D2(_) => Dimension::Two,
            RTreeDim::D3(_) => Dimension::Three,
        }
    }

    /// The dimension of the tree held.
    pub fn dimension(&self) -> (d: Dimension)
        ensures
            d == self.dimension_spec(),
    {
        match self {
            RTreeDim::D1(_) => Dimension::One,
            RTreeDim::D2(_) => Dimension::Two,
            RTreeDim::D3(_) => Dimension::Three,
        }
    }
}

/// Builds the tree of dimension `d` out of `input`: `make1`, `make2` or
/// `make3` is called, whichever belongs to `d`, and its result is held in
/// the variant of that dimension.
pub fn tree_in<A, T1, T2, T3, F1: FnOnce(A) -> T1, F2: FnOnce(A) -> T2, F3: FnOnce(A) -> T3>(
    d: Dimension,
    input: A,
    make1: F1,
    make2: F2,
    make3: F3,
) -> (t: RTreeDim<T1, T2, T3>)
    requires
        d == Dimension::One ==> make1.requires((input,)),
        d == Dimension::Two ==> make2.requires((input,)),
        d == Dimension::Three ==> make3.requires((input,)),
    ensures
        t.dimension_spec() == d,
        t matches RTreeDim::D1(x) ==> make1.ensures((input,), x),
        t matches RTreeDim::D2(x) ==> make2.ensures((input,), x),
        t matches RTreeDim::D3(x) ==> make3.ensures((input,), x),
{
    match d {
        Dimension::One => RTreeDim::D1(make1(input)),
        Dimension::Two => RTreeDim::D2(make2(input)),
        Dimension::Three => RTreeDim::D3(make3(input)),
    }
}

/// Reading a dimension back gives the dimension written: each supported
/// dimension is named by its number of coordinates, and a number that names
/// a dimension is that dimension's number of coordinates.
pub proof fn lemma_dimension_roundtrip(d: Dimension, dim: u32)
    ensures
        dimension_named(dimension_value(d) as u32) == Some(d),
        dimension_named(dim) matches Some(e) ==> dimension_value(e) == dim,
        dimension_named(dim) is Some <==> 1 <= dim <= 3,
{
}

/// The number of coordinates of a tree, as `rtree_get_dimension` reports it.
pub fn rtree_dimension<T1, T2, T3>(tree: &RTreeDim<T1, T2, T3>) -> (dim: u32)
    ensures
        dim == dimension_value(tree.dimension_spec()),
        1 <= dim <= 3,
{
    match tree {
        RTreeDim::D1(_) => 1,
        RTreeDim::D2(_) => 2,
        RTreeDim::D3(_) => 3,
    }
}

} // verus!

verus! {

/// The coordinates of object `i` in a flat array that lists `dim`
/// coordinates per object, object after object.
pub open spec fn coords_of<T>(flat: Seq<T>, dim: nat, i: int) -> Seq<T> {
    flat.subrange(i * dim, i * dim + dim)
}

/// One object of a bulk load: the corners of its box and the id stored with it.
pub struct BoxEntry<T> {
    pub min: Vec<T>,
    pub max: Vec<T>,
    pub id: usize,
}

proof fn lemma_row_fits(i: int, n: int, d: int)
    requires
        0 <= i < n,
        0 <= d,
    ensures
        i * d + d <= n * d,
        0 <= i * d,
{
    assert(i * d + d <= n * d) by (nonlinear_arith)
        requires
            0 <= i < n,
            0 <= d,
    ;
    assert(0 <= i * d) by (nonlinear_arith)
        requires
            0 <= i,
            0 <= d,
    ;
}

/// Copies `dim` coordinates starting at `start` out of a flat array.
pub(crate) fn coords_from<T: Copy>(flat: &[T], start: usize, dim: usize) -> (r: Vec<T>)
    requires
        start + dim <= flat@.len(),
    ensures
        r@ == flat@.subrange(start as int, start + dim),
{
    let len = flat.len();
    let mut r: Vec<T> = Vec::new();
    let mut j: usize = 0;
    while j < dim
        invariant
            j <= dim,
            start + dim <= flat@.len(),
            len == flat@.len(),
            r@ == flat@.subrange(start as int, start + j),
        decreases dim - j,
    {
        r.push(flat[start + j]);
        j = j + 1;
    }
    r
}

/// Splits the flat arrays of a bulk load into its objects: object `i` has
/// the `dim` coordinates of `mins` and of `maxs` that start at `i * dim` as
/// the corners of its box, and `ids[i]` as its id.
pub fn bulk_load_entries<T: Copy>(
    mins: &[T],
    maxs: &[T],
    ids: &[usize],
    n: usize,
    dim: Dimension,
) -> (r: Vec<BoxEntry<T>>)
    requires
        n * dimension_value(dim) <= mins@.len(),
        n * dimension_value(dim) <= maxs@.len(),
        n <= ids@.len(),
    ensures
        r@.len() == n,
        forall|i: int|
            #![trigger r@[i]]
            0 <= i < n ==> {
                &&& r@[i].min@ == coords_of(mins@, dimension_value(dim), i)
                &&& r@[i].max@ == coords_of(maxs@, dimension_value(dim), i)
                &&& r@[i].id == ids@[i]
                &&& r@[i].min@.len() == dimension_value(dim)
                &&& r@[i].max@.len() == dimension_value(dim)
            },
        forall|i: int, j: int|
            #![trigger r@[i].min@[j]]
            0 <= i < n && 0 <= j < dimension_value(dim) ==> r@[i].min@[j] == mins@[i
                * dimension_value(dim) + j],
        forall|i: int, j: int|
            #![trigger r@[i].max@[j]]
            0 <= i < n && 0 <= j < dimension_value(dim) ==> r@[i].max@[j] == maxs@[i
                * dimension_value(dim) + j],
{
    let d = dim.coordinates();
    let mins_len = mins.len();
    let mut r: Vec<BoxEntry<T>> = Vec::new();
    let mut i: usize = 0;
    while i < n
        invariant
            i <= n,
            d == dimension_value(dim),
            n * d <= mins@.len(),
            n * d <= maxs@.len(),
            n <= ids@.len(),
            mins_len == mins@.len(),
            r@.len() == i,
            forall|k: int|
                #![trigger r@[k]]
                0 <= k < i ==> {
                    &&& r@[k].id == ids@[k]
                    &&& r@[k].min@.len() == d
                    &&& r@[k].max@.len() == d
                },
            forall|k: int, j: int|
                #![trigger r@[k].min@[j]]
                0 <= k < i && 0 <= j < d ==> r@[k].min@[j] == mins@[k * d + j],
            forall|k: int, j: int|
                #![trigger r@[k].max@[j]]
                0 <= k < i && 0 <= j < d ==> r@[k].max@[j] == maxs@[k * d + j],
        decreases n - i,
    {
        proof {
            lemma_row_fits(i as int, n as int, d as int);
        }
        let start = i * d;
        let min = coords_from(mins, start, d);
        let max = coords_from(maxs, start, d);
        let ghost old_r = r@;
        r.push(BoxEntry { min, max, id: ids[i] });
        proof {
            assert forall|k: int, j: int| 0 <= k < i + 1 && 0 <= j < d implies #[trigger] r@[k].min@[j]
                == mins@[k * d + j] by {
                if k < i {
                    assert(r@[k] == old_r[k]);
                }
            }
            assert forall|k: int, j: int| 0 <= k < i + 1 && 0 <= j < d implies #[trigger] r@[k].max@[j]
                == maxs@[k * d + j] by {
                if k < i {
                    assert(r@[k] == old_r[k]);
                }
            }
        }
        i = i + 1;
    }
    proof {
        assert forall|k: int| 0 <= k < n implies {
            &&& #[trigger] r@[k].min@ == coords_of(mins@, d as nat, k)
            &&& r@[k].max@ == coords_of(maxs@, d as nat, k)
        } by {
            lemma_row_fits(k, n as int, d as int);
            lemma_coords_of_reads_row(mins@, d as nat, k);
            lemma_coords_of_reads_row(maxs@, d as nat, k);
            assert(r@[k].min@ =~= coords_of(mins@, d as nat, k));
            assert(r@[k].max@ =~= coords_of(maxs@, d as nat, k));
        }
    }
    r
}

/// Row `i` of a flat array of `dim` values per object holds exactly the
/// `dim` values that start at `i * dim`: its `j`-th value is
/// `flat[i * dim + j]`, so objects at different indices read different
/// values of the array.
pub proof fn lemma_coords_of_reads_row<T>(flat: Seq<T>, dim: nat, i: int)
    requires
        0 <= i,
        i * dim + dim <= flat.len(),
    ensures
        coords_of(flat, dim, i).len() == dim,
        forall|j: int|
            0 <= j < dim ==> #[trigger] coords_of(flat, dim, i)[j] == flat[i * dim + j],
{
    assert(0 <= i * dim) by (nonlinear_arith)
        requires
            0 <= i,
    ;
}

/// Objects at different indices read disjoint rows of the flat arrays: no
/// value of the array is a coordinate of two objects.
pub proof fn lemma_rows_disjoint(dim: nat, i1: int, j1: int, i2: int, j2: int)
    requires
        0 <= i1,
        0 <= i2,
        0 <= j1 < dim,
        0 <= j2 < dim,
        i1 * dim + j1 == i2 * dim + j2,
    ensures
        i1 == i2,
        j1 == j2,
{
    if i1 < i2 {
        assert(i1 * dim + dim <= i2 * dim) by (nonlinear_arith)
            requires
                i1 < i2,
                0 <= dim,
        ;
    } else if i2 < i1 {
        assert(i2 * dim + dim <= i1 * dim) by (nonlinear_arith)
            requires
                i2 < i1,
                0 <= dim,
        ;
    }
}

} // verus!
