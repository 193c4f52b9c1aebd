use vstd::prelude::*;

verus! {

/// An index-based handle to a node of a `Tree`.
#[derive(Debug, Copy, Clone, PartialEq, Eq, Structural)]
pub struct NodeId {
    pub index: usize,
}

/// A node of a `Tree`: its five links into the node pool and its payload.
#[derive(Debug)]
pub struct Node<T> {
    pub parent: Option<NodeId>,
    pub previous_sibling: Option<NodeId>,
    pub next_sibling: Option<NodeId>,
    pub first_child: Option<NodeId>,
    pub last_child: Option<NodeId>,
    pub data: T,
}

impl<T> Node<T> {
    pub fn parent(&self) -> (r: Option<NodeId>)
        ensures
            r == self.parent,
    {
        self.parent
    }

    pub fn first_child(&self) -> (r: Option<NodeId>)
        ensures
            r == self.first_child,
    {
        self.first_child
    }

    pub fn last_child(&self) -> (r: Option<NodeId>)
        ensures
            r == self.last_child,
    {
        self.last_child
    }

    pub fn previous_sibling(&self) -> (r: Option<NodeId>)
        ensures
            r == self.previous_sibling,
    {
        self.previous_sibling
    }

    pub fn next_sibling(&self) -> (r: Option<NodeId>)
        ensures
            r == self.next_sibling,
    {
        self.next_sibling
    }
}

/// A link either points at nothing or at a node below `len`.
pub open spec fn link_in_bounds(link: Option<NodeId>, len: nat) -> bool {
    link matches Some(id) ==> id.index < len
}

/// All five links of a node point into a pool of `len` nodes.
pub open spec fn node_links_in_bounds<T>(n: Node<T>, len: nat) -> bool {
    link_in_bounds(n.parent, len) && link_in_bounds(n.previous_sibling, len) && link_in_bounds(
        n.next_sibling,
        len,
    ) && link_in_bounds(n.first_child, len) && link_in_bounds(n.last_child, len)
}

/// A node with its parent, previous-sibling and next-sibling links cleared,
/// as `detach` leaves the detached node itself.
pub open spec fn spec_clear_links<T>(n: Node<T>) -> Node<T> {
    Node { parent: None, previous_sibling: None, next_sibling: None, ..n }
}

/// The node pool after detaching node `s` from its parent and siblings:
/// `s`'s own upward and sideways links are cleared, then its old neighbors
/// are stitched together, falling back to the old parent's child links
/// where `s` was the first or the last child.
pub open spec fn spec_detach<T>(nodes: Seq<Node<T>>, s: NodeId) -> Seq<Node<T>> {
    let node = nodes[s.index as int];
    let parent = node.parent;
    let prev = node.previous_sibling;
    let next = node.next_sibling;
    let cleared = nodes.update(s.index as int, spec_clear_links(node));
    let after_next = match next {
        Option::Some(n) => cleared.update(
            n.index as int,
            Node { previous_sibling: prev, ..cleared[n.index as int] },
        ),
        Option::None => match parent {
            Option::Some(p) => cleared.update(
                p.index as int,
                Node { last_child: prev, ..cleared[p.index as int] },
            ),
            Option::None => cleared,
        },
    };
    match prev {
        Option::Some(n) => after_next.update(
            n.index as int,
            Node { next_sibling: next, ..after_next[n.index as int] },
        ),
        Option::None => match parent {
            Option::Some(p) => after_next.update(
                p.index as int,
                Node { first_child: next, ..after_next[p.index as int] },
            ),
            Option::None => after_next,
        },
    }
}

/// The node pool after appending node `c` as the last child of node `s`:
/// `c` is first detached from wherever it hangs, then linked under `s`
/// after `s`'s old last child.
pub open spec fn spec_add_child<T>(nodes: Seq<Node<T>>, s: NodeId, c: NodeId) -> Seq<Node<T>> {
    let detached = spec_detach(nodes, c);
    let last = detached[s.index as int].last_child;
    let child_linked = detached.update(
        c.index as int,
        Node {
            parent: Some(s),
            previous_sibling: match last {
                Option::Some(l) => Some(l),
                Option::None => detached[c.index as int].previous_sibling,
            },
            ..detached[c.index as int]
        },
    );
    let parent_linked = child_linked.update(
        s.index as int,
        Node {
            last_child: Some(c),
            first_child: match last {
                Option::Some(_) => child_linked[s.index as int].first_child,
                Option::None => Some(c),
            },
            ..child_linked[s.index as int]
        },
    );
    match last {
        Option::Some(l) => parent_linked.update(
            l.index as int,
            Node { next_sibling: Some(c), ..parent_linked[l.index as int] },
        ),
        Option::None => parent_linked,
    }
}

impl NodeId {
    /// Appends `new_child` as the last child of this node, detaching it
    /// first from wherever it currently hangs.
    pub fn add_child<T>(self, new_child: NodeId, tree: &mut Tree<T>)
        requires
            old(tree).wf(),
            self.index < old(tree).nodes@.len(),
            new_child.index < old(tree).nodes@.len(),
            self.index != new_child.index,
        ensures
            final(tree).wf(),
            final(tree).nodes@ == spec_add_child(old(tree).nodes@, self, new_child),
            final(tree).nodes@.len() == old(tree).nodes@.len(),
            forall|i: int|
                0 <= i < old(tree).nodes@.len() ==> final(tree).nodes@[i].data == old(
                    tree,
                ).nodes@[i].data,
            final(tree).nodes@[new_child.index as int].parent == Some(self),
            final(tree).nodes@[self.index as int].last_child == Some(new_child),
    {
        new_child.detach(tree);

        let last_child_opt = {
            let self_borrow = &mut tree.nodes[self.index];
            let last_child_opt = self_borrow.last_child;
            self_borrow.last_child = Some(new_child);
            last_child_opt
        };
        {
            let new_child_borrow = &mut tree.nodes[new_child.index];
            new_child_borrow.parent = Some(self);
            if let Some(last_child) = last_child_opt {
                new_child_borrow.previous_sibling = Some(last_child);
            }
        }
        if last_child_opt.is_none() {
            let self_borrow = &mut tree.nodes[self.index];
            self_borrow.first_child = Some(new_child);
        }
        if let Some(last_child) = last_child_opt {
            let last_borrow = &mut tree.nodes[last_child.index];
            last_borrow.next_sibling = Some(new_child);
        }

        proof {
            assert(tree.nodes@ =~= spec_add_child(old(tree).nodes@, self, new_child));
        }
    }

    /// Unhooks this node from its parent and siblings. The node keeps its
    /// children; its old neighbors (or, at either end, the old parent's
    /// child links) are joined around the gap.
    pub fn detach<T>(self, tree: &mut Tree<T>)
        requires
            old(tree).wf(),
            self.index < old(tree).nodes@.len(),
        ensures
            final(tree).wf(),
            final(tree).nodes@ == spec_detach(old(tree).nodes@, self),
            final(tree).nodes@.len() == old(tree).nodes@.len(),
            forall|i: int|
                0 <= i < old(tree).nodes@.len() ==> final(tree).nodes@[i].data == old(
                    tree,
                ).nodes@[i].data,
    {
        let (parent, previous_sibling, next_sibling) = {
            let node = &mut tree.nodes[self.index];
            let links = (node.parent, node.previous_sibling, node.next_sibling);
            node.parent = None;
            node.previous_sibling = None;
            node.next_sibling = None;
            links
        };

        if let Some(next_sibling) = next_sibling {
            let n = &mut tree.nodes[next_sibling.index];
            n.previous_sibling = previous_sibling;
        } else if let Some(parent) = parent {
            let n = &mut tree.nodes[parent.index];
            n.last_child = previous_sibling;
        }

        if let Some(previous_sibling) = previous_sibling {
            let n = &mut tree.nodes[previous_sibling.index];
            n.next_sibling = next_sibling;
        } else if let Some(parent) = parent {
            let n = &mut tree.nodes[parent.index];
            n.first_child = next_sibling;
        }

        proof {
            assert(tree.nodes@ =~= spec_detach(old(tree).nodes@, self));
        }
    }
}

/// A tree kept in a single node pool: every node lives in one `Vec` and
/// links to its relatives by index.
#[derive(Debug)]
pub struct Tree<T> {
    pub nodes: Vec<Node<T>>,
}

impl<T> Tree<T> {
    /// Well-formedness: every link of every node points into the pool.
    pub open spec fn wf(self) -> bool {
        forall|i: int|
            0 <= i < self.nodes@.len() ==> node_links_in_bounds(
                #[trigger] self.nodes@[i],
                self.nodes@.len(),
            )
    }

    pub fn new() -> (r: Tree<T>)
        ensures
            r.wf(),
            r.nodes@.len() == 0,
    {
        Tree { nodes: Vec::new() }
    }

    /// Adds a fresh, unlinked node holding `data` to the pool and returns
    /// its handle.
    pub fn new_node(&mut self, data: T) -> (r: NodeId)
        requires
            old(self).wf(),
        ensures
            final(self).wf(),
            r.index == old(self).nodes@.len(),
            final(self).nodes@.len() == old(self).nodes@.len() + 1,
            forall|i: int|
                0 <= i < old(self).nodes@.len() ==> final(self).nodes@[i] == old(self).nodes@[i],
            final(self).nodes@[r.index as int].parent is None,
            final(self).nodes@[r.index as int].previous_sibling is None,
            final(self).nodes@[r.index as int].next_sibling is None,
            final(self).nodes@[r.index as int].first_child is None,
            final(self).nodes@[r.index as int].last_child is None,
            final(self).nodes@[r.index as int].data == data,
    {
        let index = self.get_free_index();

        self.nodes.push(
            Node {
                parent: None,
                first_child: None,
                last_child: None,
                previous_sibling: None,
                next_sibling: None,
                data: data,
            },
        );

        NodeId { index }
    }

    fn get_free_index(&self) -> (r: usize)
        ensures
            r == self.nodes@.len(),
    {
        self.nodes.len()
    }

    /// The node behind `id`, or `None` for a handle the pool has never
    /// issued.
    pub fn get(&self, id: NodeId) -> (r: Option<&Node<T>>)
        ensures
            id.index < self.nodes@.len() ==> (r matches Some(n) && *n == self.nodes@[id.index as int]),
            id.index >= self.nodes@.len() ==> r is None,
    {
        if id.index < self.nodes.len() {
            Some(&self.nodes[id.index])
        } else {
            None
        }
    }

    /// Mutable access to the node behind `id`, or `None` for a handle the
    /// pool has never issued.
    pub fn get_mut(&mut self, id: NodeId) -> (r: Option<&mut Node<T>>)
        requires
            old(self).wf(),
        ensures
            id.index < old(self).nodes@.len() ==> (r matches Some(n) && *n == old(
                self,
            ).nodes@[id.index as int] && final(self).nodes@ == old(self).nodes@.update(
                id.index as int,
                *final(n),
            )),
            id.index >= old(self).nodes@.len() ==> r is None && *final(self) == *old(self),
    {
        if id.index < self.nodes.len() {
            Some(&mut self.nodes[id.index])
        } else {
            None
        }
    }
}

} // verus!
