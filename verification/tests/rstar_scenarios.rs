use rstar::primitives::{GeomWithData, Rectangle};
use rstar::{ParentNode, RTree, RTreeNode};

use rstar_capi::{
    bulk_load_entries, check_build, node_children, node_id, point_coords, rtree_dimension,
    BoxEntry, Dimension, NodeKind, NodeRef, RTreeDim,
};

type Obj2 = GeomWithData<Rectangle<[f64; 2]>, usize>;

fn objects(entries: Vec<BoxEntry<f64>>) -> Vec<Obj2> {
    entries
        .into_iter()
        .map(|e| {
            let min: [f64; 2] = e.min.try_into().unwrap();
            let max: [f64; 2] = e.max.try_into().unwrap();
            GeomWithData::new(Rectangle::from_corners(min, max), e.id)
        })
        .collect()
}

fn load(mins: &[f64], maxs: &[f64], ids: &[usize]) -> RTree<Obj2> {
    let d = check_build(&[false, false, false, false], 2).unwrap();
    assert_eq!(d, Dimension::Two);
    RTree::bulk_load(objects(bulk_load_entries(mins, maxs, ids, ids.len(), d)))
}

#[test]
fn located_ids_are_those_of_the_boxes_holding_the_point() {
    let mins = [0.0, 0.0, 1.0, 1.0, 5.0, 5.0];
    let maxs = [2.0, 2.0, 3.0, 3.0, 6.0, 6.0];
    let ids = [10usize, 20, 30];
    let tree = load(&mins, &maxs, &ids);
    let locate = |q: [f64; 3]| -> Vec<usize> {
        let c = point_coords(&q, Dimension::Two);
        let p: [f64; 2] = c.try_into().unwrap();
        let mut found: Vec<usize> = tree.locate_all_at_point(&p).map(|o| o.data).collect();
        found.sort();
        found
    };
    assert_eq!(locate([1.5, 1.5, 99.0]), vec![10, 20]);
    assert_eq!(locate([0.5, 0.5, 99.0]), vec![10]);
    assert_eq!(locate([5.5, 5.5, 99.0]), vec![30]);
    assert_eq!(locate([-1.0, 0.0, 99.0]), Vec::<usize>::new());
}

#[test]
fn created_tree_reports_its_dimension() {
    // `rstar` builds no tree over one-coordinate points (it panics), so
    // only the two larger dimensions are built here.
    for dim in 2u32..=3 {
        let d = check_build(&[false], dim).unwrap();
        let tree: RTreeDim<RTree<GeomWithData<Rectangle<[f64; 1]>, usize>>, RTree<Obj2>, RTree<GeomWithData<Rectangle<[f64; 3]>, usize>>> =
            match d {
                Dimension::One => RTreeDim::D1(RTree::new()),
                Dimension::Two => RTreeDim::D2(RTree::new()),
                Dimension::Three => RTreeDim::D3(RTree::new()),
            };
        assert_eq!(rtree_dimension(&tree), dim);
    }
}

fn walk<'a>(
    node: &NodeRef<&'a ParentNode<Obj2>, &'a RTreeNode<Obj2>>,
    leaf_ids: &mut Vec<usize>,
) {
    let (kind, held): (NodeKind, Vec<&'a RTreeNode<Obj2>>) = match node {
        NodeRef::Parent(p) => (NodeKind::Inner, p.children().iter().collect()),
        NodeRef::Node(n) => match *n {
            RTreeNode::Leaf(l) => (NodeKind::Leaf(l.data), Vec::new()),
            RTreeNode::Parent(p) => (NodeKind::Inner, p.children().iter().collect()),
        },
    };
    let listed = node_children(node, kind, &held);
    if let NodeRef::Node(_) = node {
        assert_eq!(node_id(node, kind).is_ok(), listed.is_empty());
    }
    if let Ok(id) = node_id(node, kind) {
        leaf_ids.push(id);
    }
    for child in listed {
        walk(&child, leaf_ids);
    }
}

#[test]
fn walking_the_nodes_reaches_every_object_once() {
    let n = 200usize;
    let mut mins = Vec::new();
    let mut maxs = Vec::new();
    let mut ids = Vec::new();
    for i in 0..n {
        let x = (i % 20) as f64;
        let y = (i / 20) as f64;
        mins.extend_from_slice(&[x, y]);
        maxs.extend_from_slice(&[x + 0.5, y + 0.5]);
        ids.push(1000 + i);
    }
    let tree = load(&mins, &maxs, &ids);
    let root: NodeRef<&ParentNode<Obj2>, &RTreeNode<Obj2>> = NodeRef::Parent(tree.root());
    let mut found = Vec::new();
    walk(&root, &mut found);
    found.sort();
    assert_eq!(found, ids);
}
