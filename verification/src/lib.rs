//! Verified core of a C interface to an R-tree spatial index.
//!
//! The index itself (rectangles with floating-point corners) lives in the
//! `rstar` crate and is driven from the program around this library; this
//! crate holds the parts of the interface that decide and move values:
//! status codes, dimension handling, the flat-array layout of bulk loads,
//! and the navigation of node handles.
mod error;
mod node;
mod request;
mod rtree;

pub use error::{error_code, lemma_error_codes_distinct, RTreeError};
pub use node::{lemma_every_child_listed, lemma_leaf_id_unchanged, is_branch, lemma_below_top_leaf_iff_childless, listed_children, node_children, node_id, node_id_outcome, lemma_id_or_children, NodeKind, NodeRef, RTreeNodeH};
pub use request::{lemma_all_present_exact, all_present, build_outcome, check_build, check_pointers, build_tree, point_coords};
pub use rtree::{dimension_from_u32, dimension_named, dimension_value, lemma_dimension_roundtrip, rtree_dimension, tree_in, lemma_coords_of_reads_row, lemma_rows_disjoint, bulk_load_entries, coords_of, BoxEntry, Dimension, RTreeDim, RTreeH, Sealed};
