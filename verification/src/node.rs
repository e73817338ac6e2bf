use vstd::prelude::*;

use crate::error::RTreeError;
use crate::rtree::Sealed;

verus! {

/// Opaque handle under which a node crosses the C boundary: it is only
/// ever seen behind a pointer, and no user of the crate can build one.
pub enum RTreeNodeH {
    /// Never built: the interface hands out pointers to its own values
    /// under this type, and only casts them back.
    Opaque(Sealed),
}

/// What a node handle designates: `Parent(p)` the top node of a tree (a
/// parent node, which holds no children when the tree is empty), or
/// `Node(n)` a node below it, which is either a leaf holding one object or
/// a parent of further nodes.
#[derive(Clone, Copy)]
pub enum NodeRef<P, N> {
    Parent(P),
    Node(N),
}

/// What a node below the top of a tree is: a leaf with the id of the object
/// it holds, or a parent of further nodes.
#[derive(Debug, Clone, Copy, PartialEq, Eq, Structural)]
pub enum NodeKind {
    Leaf(usize),
    Inner,
}

/// The answer of `rtree_node_id`: the id of the object for a leaf, and
/// `NodeNotLeaf` for the top node and for every other parent.
pub open spec fn node_id_outcome<P, N>(node: NodeRef<P, N>, kind: NodeKind) -> Result<usize, RTreeError> {
    match node {
        NodeRef::Parent(_) => Err(RTreeError::NodeNotLeaf),
        NodeRef::Node(_) => match kind {
            NodeKind::Leaf(id) => Ok(id),
            NodeKind::Inner => Err(RTreeError::NodeNotLeaf),
        },
    }
}

/// The id stored in a node; `kind` says what the node is when it lies
/// below the top of the tree (for the top node it is not read).
pub fn node_id<P, N>(node: &NodeRef<P, N>, kind: NodeKind) -> (r: Result<usize, RTreeError>)
    ensures
        r == node_id_outcome(*node, kind),
        *node is Parent ==> r == Err::<usize, RTreeError>(RTreeError::NodeNotLeaf),
        *node is Node ==> (kind matches NodeKind::Leaf(id) ==> r == Ok::<usize, RTreeError>(id)),
        *node is Node && kind is Inner ==> r == Err::<usize, RTreeError>(RTreeError::NodeNotLeaf),
{
    match node {
        NodeRef::Parent(_) => Err(RTreeError::NodeNotLeaf),
        NodeRef::Node(_) => match kind {
            NodeKind::Leaf(id) => Ok(id),
            NodeKind::Inner => Err(RTreeError::NodeNotLeaf),
        },
    }
}

/// Whether a node is a branch, that is not a leaf: the top node always is,
/// a node below it is when it is a parent of further nodes.
pub open spec fn is_branch<P, N>(node: NodeRef<P, N>, kind: NodeKind) -> bool {
    match node {
        NodeRef::Parent(_) => true,
        NodeRef::Node(_) => kind is Inner,
    }
}

/// The handles `rtree_node_children` lists for a node that holds
/// `children`: one `Node` handle per child, in order, for a branch; none
/// for a leaf.
pub open spec fn listed_children<P, N>(node: NodeRef<P, N>, kind: NodeKind, children: Seq<N>) -> Seq<
    NodeRef<P, N>,
> {
    if is_branch(node, kind) {
        children.map_values(|c: N| NodeRef::<P, N>::Node(c))
    } else {
        Seq::empty()
    }
}

/// The handles of the children of a node: for the top node and for inner
/// nodes, one `Node` handle per child, in the order the node holds them;
/// for a leaf, none. `children` are the nodes that the node holds (for a
/// leaf it is not read).
pub fn node_children<P, N: Copy>(node: &NodeRef<P, N>, kind: NodeKind, children: &[N]) -> (r: Vec<
    NodeRef<P, N>,
>)
    ensures
        r@ == listed_children(*node, kind, children@),
        (*node is Parent || kind is Inner) ==> r@.len() == children@.len(),
        (*node is Parent || kind is Inner) ==> forall|k: int|
            0 <= k < children@.len() ==> #[trigger] r@[k] == NodeRef::<P, N>::Node(children@[k]),
        (*node is Node && kind is Leaf) ==> r@.len() == 0,
{
    let mut r: Vec<NodeRef<P, N>> = Vec::new();
    let leaf = match node {
        NodeRef::Parent(_) => false,
        NodeRef::Node(_) => match kind {
            NodeKind::Leaf(_) => true,
            NodeKind::Inner => false,
        },
    };
    if leaf {
        assert(r@ =~= listed_children(*node, kind, children@));
        return r;
    }
    let len = children.len();
    let mut i: usize = 0;
    while i < len
        invariant
            i <= len,
            len == children@.len(),
            r@.len() == i,
            forall|k: int| 0 <= k < i ==> #[trigger] r@[k] == NodeRef::<P, N>::Node(children@[k]),
        decreases len - i,
    {
        r.push(NodeRef::Node(children[i]));
        i = i + 1;
    }
    assert(r@ =~= listed_children(*node, kind, children@));
    r
}

/// The id read from a leaf below the top is the id the leaf holds,
/// unchanged; the top node and inner nodes have none.
pub proof fn lemma_leaf_id_unchanged<P, N>(node: NodeRef<P, N>, kind: NodeKind, id: usize)
    ensures
        node is Node && kind == NodeKind::Leaf(id) ==> node_id_outcome(node, kind) == Ok::<
            usize,
            RTreeError,
        >(id),
        node is Parent ==> node_id_outcome(node, kind) == Err::<usize, RTreeError>(
            RTreeError::NodeNotLeaf,
        ),
        kind is Inner ==> node_id_outcome(node, kind) == Err::<usize, RTreeError>(
            RTreeError::NodeNotLeaf,
        ),
{
}

/// A branch (the top node, or an inner node below it) lists every child it
/// holds, once and in order; a leaf below the top lists none.
pub proof fn lemma_every_child_listed<P, N>(node: NodeRef<P, N>, kind: NodeKind, children: Seq<N>)
    ensures
        (node is Parent || kind is Inner) ==> listed_children(node, kind, children).len()
            == children.len(),
        (node is Parent || kind is Inner) ==> forall|k: int|
            0 <= k < children.len() ==> #[trigger] listed_children(node, kind, children)[k]
                == NodeRef::<P, N>::Node(children[k]),
        (node is Node && kind is Leaf) ==> listed_children(node, kind, children).len() == 0,
{
}

/// `rtree_node_id` succeeds exactly on leaves, and `rtree_node_children`
/// lists children only for branches: no node has both an id and listed
/// children. Every failure of `rtree_node_id` is `NodeNotLeaf`.
pub proof fn lemma_id_or_children<P, N>(node: NodeRef<P, N>, kind: NodeKind, children: Seq<N>)
    ensures
        node_id_outcome(node, kind) is Ok <==> !is_branch(node, kind),
        node_id_outcome(node, kind) is Ok ==> listed_children(node, kind, children).len() == 0,
        node_id_outcome(node, kind) is Err ==> node_id_outcome(node, kind) == Err::<
            usize,
            RTreeError,
        >(RTreeError::NodeNotLeaf),
{
}

/// Below the top of a tree, where every parent node holds at least one
/// child, a node has an id exactly when `rtree_node_children` lists no
/// children for it.
pub proof fn lemma_below_top_leaf_iff_childless<P, N>(node: NodeRef<P, N>, kind: NodeKind, children: Seq<N>)
    requires
        node is Node,
        kind is Inner ==> children.len() > 0,
    ensures
        node_id_outcome(node, kind) is Ok <==> listed_children(node, kind, children).len() == 0,
{
}

} // verus!
