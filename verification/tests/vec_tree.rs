use bigseed::vec_tree::{NodeEdge, NodeId, Traverse, VecTree};

fn data_of(tree: &VecTree<i32>, ids: &[NodeId]) -> Vec<i32> {
    ids.iter().map(|id| tree.get(*id).unwrap().data).collect()
}

#[test]
fn mod_create_tree() {
    let mut tree = VecTree::new();

    let root_node = tree.new_node(1);
    let child_node_1 = tree.new_node(2);
    let child_node_2 = tree.new_node(3);

    root_node.append_child(child_node_1, &mut tree);
    root_node.append_child(child_node_2, &mut tree);

    assert!(tree.nodes.len() == 3, "it should have 3 nodes in the tree");
}

#[test]
fn iterate_over_children() {
    let mut tree = VecTree::new();

    let root_node = tree.new_node(1);
    let child_node_1 = tree.new_node(2);
    let child_node_2 = tree.new_node(3);
    let child_node_3 = tree.new_node(4);
    let grandchild = tree.new_node(5);

    root_node.append_child(child_node_1, &mut tree);
    root_node.append_child(child_node_2, &mut tree);
    root_node.append_child(child_node_3, &mut tree);
    child_node_3.append_child(grandchild, &mut tree);

    assert_eq!(data_of(&tree, &root_node.children(&tree)), [2, 3, 4]);
    assert_eq!(data_of(&tree, &child_node_1.children(&tree)), []);
    assert_eq!(data_of(&tree, &child_node_2.children(&tree)), []);
    assert_eq!(data_of(&tree, &child_node_3.children(&tree)), [5]);
}

#[test]
fn iterate_over_descendants_with_depth() {
    let mut tree = VecTree::new();

    // 0
    // 1----2--3
    // |    |
    // |    7
    // 4--5
    // |
    // 6
    let root_node = tree.new_node(0);
    let node_1 = tree.new_node(1);
    let node_2 = tree.new_node(2);
    let node_3 = tree.new_node(3);
    let node_4 = tree.new_node(4);
    let node_5 = tree.new_node(5);
    let node_6 = tree.new_node(6);
    let node_7 = tree.new_node(7);

    root_node.append_child(node_1, &mut tree);
    root_node.append_child(node_2, &mut tree);
    root_node.append_child(node_3, &mut tree);
    node_1.append_child(node_4, &mut tree);
    node_1.append_child(node_5, &mut tree);
    node_4.append_child(node_6, &mut tree);
    node_2.append_child(node_7, &mut tree);

    let descendants = root_node
        .descendants_with_depth(&tree)
        .iter()
        .map(|(node, depth)| (tree.get(*node).unwrap().data, *depth))
        .collect::<Vec<(i32, u32)>>();

    let expected_result = [
        (0, 0),
        (1, 1),
        (4, 2),
        (6, 3),
        (5, 2),
        (2, 1),
        (7, 2),
        (3, 1),
    ];

    assert_eq!(descendants, expected_result);
}

#[test]
fn iterate_over_descendants() {
    let mut tree = VecTree::new();

    let root_node = tree.new_node(0);
    let node_1 = tree.new_node(1);
    let node_2 = tree.new_node(2);
    let node_3 = tree.new_node(3);

    root_node.append_child(node_1, &mut tree);
    root_node.append_child(node_2, &mut tree);
    node_1.append_child(node_3, &mut tree);

    assert_eq!(data_of(&tree, &root_node.descendants(&tree)), [0, 1, 3, 2]);
    assert_eq!(data_of(&tree, &node_1.descendants(&tree)), [1, 3]);
    assert_eq!(data_of(&tree, &node_2.descendants(&tree)), [2]);
}

#[test]
fn prepend_child_goes_first() {
    let mut tree = VecTree::new();

    let root = tree.new_node(0);
    let a = tree.new_node(1);
    let b = tree.new_node(2);

    root.append_child(a, &mut tree);
    root.prepend_child(b, &mut tree);

    assert_eq!(data_of(&tree, &root.children(&tree)), [2, 1]);
    assert_eq!(tree.get(root).unwrap().first_child(), Some(b));
    assert_eq!(tree.get(root).unwrap().last_child(), Some(a));
}

#[test]
fn insert_after_and_before_keep_sibling_order() {
    let mut tree = VecTree::new();

    let root = tree.new_node(0);
    let a = tree.new_node(1);
    let c = tree.new_node(3);
    let b = tree.new_node(2);
    let d = tree.new_node(4);

    root.append_child(a, &mut tree);
    root.append_child(c, &mut tree);
    a.insert_after(b, &mut tree);
    a.insert_before(d, &mut tree);

    assert_eq!(data_of(&tree, &root.children(&tree)), [4, 1, 2, 3]);
    assert_eq!(tree.get(root).unwrap().first_child(), Some(d));
    assert_eq!(tree.get(root).unwrap().last_child(), Some(c));
}

#[test]
fn sibling_and_ancestor_walks() {
    let mut tree = VecTree::new();

    let root = tree.new_node(0);
    let a = tree.new_node(1);
    let b = tree.new_node(2);
    let c = tree.new_node(3);
    let grandchild = tree.new_node(4);

    root.append_child(a, &mut tree);
    root.append_child(b, &mut tree);
    root.append_child(c, &mut tree);
    b.append_child(grandchild, &mut tree);

    assert_eq!(data_of(&tree, &b.preceding_siblings(&tree)), [2, 1]);
    assert_eq!(data_of(&tree, &b.following_siblings(&tree)), [2, 3]);
    assert_eq!(data_of(&tree, &grandchild.ancestors(&tree)), [4, 2, 0]);
}

#[test]
fn detach_reattaches_elsewhere() {
    let mut tree = VecTree::new();

    let root = tree.new_node(0);
    let a = tree.new_node(1);
    let b = tree.new_node(2);

    root.append_child(a, &mut tree);
    root.append_child(b, &mut tree);

    b.detach(&mut tree);
    assert_eq!(data_of(&tree, &root.children(&tree)), [1]);

    a.append_child(b, &mut tree);
    assert_eq!(data_of(&tree, &a.children(&tree)), [2]);
    assert_eq!(tree.get(b).unwrap().parent(), Some(a));
}

#[test]
fn clear_empties_the_pool() {
    let mut tree = VecTree::new();
    tree.new_node(1);
    tree.new_node(2);

    tree.clear();

    assert_eq!(tree.nodes.len(), 0);
}

#[test]
fn vec_tree_get_mut_edits_the_payload() {
    let mut tree = VecTree::new();
    let node = tree.new_node(10);

    tree.get_mut(node).unwrap().data = 99;

    assert_eq!(tree.get(node).unwrap().data, 99);
}

#[test]
fn traverse_emits_start_and_end_edges() {
    let mut tree = VecTree::new();

    let root = tree.new_node(0);
    let child = tree.new_node(1);
    root.append_child(child, &mut tree);

    let mut traverse = Traverse { root, next: Some(NodeEdge::Start(root)) };
    let mut edges: Vec<(bool, i32)> = Vec::new();
    while let Some(edge) = traverse.next(&tree) {
        match edge {
            NodeEdge::Start(n) => edges.push((true, tree.get(n).unwrap().data)),
            NodeEdge::End(n) => edges.push((false, tree.get(n).unwrap().data)),
        }
    }

    assert_eq!(edges, [(true, 0), (true, 1), (false, 1), (false, 0)]);
}

#[test]
fn cyclic_links_cut_off_instead_of_looping() {
    // The node pool is public, so a malformed pool whose sibling links
    // form a cycle can be built by hand. The walks are cut off after one
    // step per node instead of looping forever.
    let mut tree: VecTree<i32> = VecTree::new();
    let a = tree.new_node(1);
    let b = tree.new_node(2);
    tree.get_mut(a).unwrap().next_sibling = Some(b);
    tree.get_mut(b).unwrap().next_sibling = Some(a);

    assert_eq!(data_of(&tree, &a.following_siblings(&tree)), [1, 2]);
}
