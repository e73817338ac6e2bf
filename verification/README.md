# rstar_capi

A C interface to an R-tree spatial index (the `rstar` crate), with the
interface's own logic verified by Verus.

- `src/` is the verified library: status codes (`RTreeError`), dimension
  handling and the choice of tree variant (`Dimension`, `RTreeDim`,
  `build_tree`), the split of the flat bulk-load arrays into objects
  (`bulk_load_entries`), and the navigation of node handles (`NodeRef`,
  `node_id`, `node_children`).
- `app/lib.rs` holds the `extern "C"` functions: it reads and writes through
  the caller's pointers and makes the `rstar` calls, whose objects have
  floating-point corners and so stay outside the verified code.
- `tests/` runs the library alone and together with `rstar`.

`rstar` builds no tree over points of one coordinate (it panics), so a tree of
dimension 1 passes the interface's checks and then aborts when it is built.
