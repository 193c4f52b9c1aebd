use bigseed::tree::Tree;

#[test]
fn create_tree() {
    let mut tree = Tree::new();

    let root_node = tree.new_node(1);
    let child_node_1 = tree.new_node(2);
    let child_node_2 = tree.new_node(3);

    root_node.add_child(child_node_1, &mut tree);
    root_node.add_child(child_node_2, &mut tree);

    assert!(tree.nodes.len() == 3, "it should have 3 nodes in the tree");
}

#[test]
fn added_children_are_linked_in_order() {
    let mut tree = Tree::new();

    let root = tree.new_node("root");
    let first = tree.new_node("first");
    let second = tree.new_node("second");

    root.add_child(first, &mut tree);
    root.add_child(second, &mut tree);

    let root_node = tree.get(root).unwrap();
    assert_eq!(root_node.first_child(), Some(first));
    assert_eq!(root_node.last_child(), Some(second));

    let first_node = tree.get(first).unwrap();
    assert_eq!(first_node.parent(), Some(root));
    assert_eq!(first_node.previous_sibling(), None);
    assert_eq!(first_node.next_sibling(), Some(second));

    let second_node = tree.get(second).unwrap();
    assert_eq!(second_node.parent(), Some(root));
    assert_eq!(second_node.previous_sibling(), Some(first));
    assert_eq!(second_node.next_sibling(), None);

    assert_eq!(tree.get(root).unwrap().data, "root");
}

#[test]
fn detach_unhooks_a_middle_child() {
    let mut tree = Tree::new();

    let root = tree.new_node(0);
    let a = tree.new_node(1);
    let b = tree.new_node(2);
    let c = tree.new_node(3);

    root.add_child(a, &mut tree);
    root.add_child(b, &mut tree);
    root.add_child(c, &mut tree);

    b.detach(&mut tree);

    let b_node = tree.get(b).unwrap();
    assert_eq!(b_node.parent(), None);
    assert_eq!(b_node.previous_sibling(), None);
    assert_eq!(b_node.next_sibling(), None);

    assert_eq!(tree.get(a).unwrap().next_sibling(), Some(c));
    assert_eq!(tree.get(c).unwrap().previous_sibling(), Some(a));
    assert_eq!(tree.get(root).unwrap().first_child(), Some(a));
    assert_eq!(tree.get(root).unwrap().last_child(), Some(c));
}

#[test]
fn get_rejects_unknown_handles() {
    let mut tree: Tree<i32> = Tree::new();
    let only = tree.new_node(1);

    let mut other = Tree::new();
    let stale = other.new_node(1);
    let second = other.new_node(2);

    assert!(tree.get(only).is_some());
    assert!(tree.get(stale).is_some(), "index 0 exists in both pools");
    assert!(tree.get(second).is_none(), "index 1 was never issued here");
}

#[test]
fn get_mut_edits_the_payload() {
    let mut tree = Tree::new();
    let node = tree.new_node(10);

    tree.get_mut(node).unwrap().data = 99;

    assert_eq!(tree.get(node).unwrap().data, 99);
}
