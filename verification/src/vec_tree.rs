use vstd::prelude::*;

verus! {

/// An index-based handle to a node of a `VecTree`.
#[derive(Debug, Copy, Clone, PartialEq, Eq, Structural)]
pub struct NodeId {
    pub index: usize,
}

/// A node of a `VecTree`: its five links into the node pool and its
/// payload.
#[derive(Debug)]
pub struct Node<T> {
    pub parent: Option<NodeId>,
    pub previous_sibling: Option<NodeId>,
    pub next_sibling: Option<NodeId>,
    pub first_child: Option<NodeId>,
    pub last_child: Option<NodeId>,
    pub data: T,
}

impl<T> Node<T> {
    pub fn parent(&self) -> (r: Option<NodeId>)
        ensures
            r == self.parent,
    {
        self.parent
    }

    pub fn first_child(&self) -> (r: Option<NodeId>)
        ensures
            r == self.first_child,
    {
        self.first_child
    }

    pub fn last_child(&self) -> (r: Option<NodeId>)
        ensures
            r == self.last_child,
    {
        self.last_child
    }

    pub fn previous_sibling(&self) -> (r: Option<NodeId>)
        ensures
            r == self.previous_sibling,
    {
        self.previous_sibling
    }

    pub fn next_sibling(&self) -> (r: Option<NodeId>)
        ensures
            r == self.next_sibling,
    {
        self.next_sibling
    }
}

/// A link either points at nothing or at a node below `len`.
pub open spec fn link_in_bounds(link: Option<NodeId>, len: nat) -> bool {
    link matches Some(id) ==> id.index < len
}

/// All five links of a node point into a pool of `len` nodes.
pub open spec fn node_links_in_bounds<T>(n: Node<T>, len: nat) -> bool {
    link_in_bounds(n.parent, len) && link_in_bounds(n.previous_sibling, len) && link_in_bounds(
        n.next_sibling,
        len,
    ) && link_in_bounds(n.first_child, len) && link_in_bounds(n.last_child, len)
}

/// A node with its parent, previous-sibling and next-sibling links cleared,
/// as `detach` leaves the detached node itself.
pub open spec fn spec_clear_links<T>(n: Node<T>) -> Node<T> {
    Node { parent: None, previous_sibling: None, next_sibling: None, ..n }
}

/// The node pool after detaching node `s` from its parent and siblings:
/// `s`'s own upward and sideways links are cleared, then its old neighbors
/// are stitched together, falling back to the old parent's child links
/// where `s` was the first or the last child.
pub open spec fn spec_detach<T>(nodes: Seq<Node<T>>, s: NodeId) -> Seq<Node<T>> {
    let node = nodes[s.index as int];
    let parent = node.parent;
    let prev = node.previous_sibling;
    let next = node.next_sibling;
    let cleared = nodes.update(s.index as int, spec_clear_links(node));
    let after_next = match next {
        Option::Some(n) => cleared.update(
            n.index as int,
            Node { previous_sibling: prev, ..cleared[n.index as int] },
        ),
        Option::None => match parent {
            Option::Some(p) => cleared.update(
                p.index as int,
                Node { last_child: prev, ..cleared[p.index as int] },
            ),
            Option::None => cleared,
        },
    };
    match prev {
        Option::Some(n) => after_next.update(
            n.index as int,
            Node { next_sibling: next, ..after_next[n.index as int] },
        ),
        Option::None => match parent {
            Option::Some(p) => after_next.update(
                p.index as int,
                Node { first_child: next, ..after_next[p.index as int] },
            ),
            Option::None => after_next,
        },
    }
}

/// The node pool after appending node `c` as the last child of node `s`:
/// `c` is first detached from wherever it hangs, then linked under `s`
/// after `s`'s old last child.
pub open spec fn spec_append_child<T>(nodes: Seq<Node<T>>, s: NodeId, c: NodeId) -> Seq<Node<T>> {
    let detached = spec_detach(nodes, c);
    let last = detached[s.index as int].last_child;
    let child_linked = detached.update(
        c.index as int,
        Node {
            parent: Some(s),
            previous_sibling: match last {
                Option::Some(l) => Some(l),
                Option::None => detached[c.index as int].previous_sibling,
            },
            ..detached[c.index as int]
        },
    );
    let parent_linked = child_linked.update(
        s.index as int,
        Node {
            last_child: Some(c),
            first_child: match last {
                Option::Some(_) => child_linked[s.index as int].first_child,
                Option::None => Some(c),
            },
            ..child_linked[s.index as int]
        },
    );
    match last {
        Option::Some(l) => parent_linked.update(
            l.index as int,
            Node { next_sibling: Some(c), ..parent_linked[l.index as int] },
        ),
        Option::None => parent_linked,
    }
}

/// The node pool after prepending node `c` as the first child of node `s`:
/// the mirror image of `spec_append_child`.
pub open spec fn spec_prepend_child<T>(nodes: Seq<Node<T>>, s: NodeId, c: NodeId) -> Seq<Node<T>> {
    let detached = spec_detach(nodes, c);
    let first = detached[s.index as int].first_child;
    let child_linked = detached.update(
        c.index as int,
        Node {
            parent: Some(s),
            next_sibling: match first {
                Option::Some(f) => Some(f),
                Option::None => detached[c.index as int].next_sibling,
            },
            ..detached[c.index as int]
        },
    );
    let parent_linked = child_linked.update(
        s.index as int,
        Node {
            first_child: Some(c),
            last_child: match first {
                Option::Some(_) => child_linked[s.index as int].last_child,
                Option::None => Some(c),
            },
            ..child_linked[s.index as int]
        },
    );
    match first {
        Option::Some(f) => parent_linked.update(
            f.index as int,
            Node { previous_sibling: Some(c), ..parent_linked[f.index as int] },
        ),
        Option::None => parent_linked,
    }
}

/// The node pool after inserting node `ns` as the sibling right after node
/// `s`: `ns` is detached, then linked between `s` and `s`'s old next
/// sibling; if `s` was the last child, the parent's last-child link moves
/// to `ns`.
pub open spec fn spec_insert_after<T>(nodes: Seq<Node<T>>, s: NodeId, ns: NodeId) -> Seq<Node<T>> {
    let detached = spec_detach(nodes, ns);
    let parent = detached[s.index as int].parent;
    let next = detached[s.index as int].next_sibling;
    let sibling_linked = detached.update(
        ns.index as int,
        Node {
            parent: parent,
            previous_sibling: Some(s),
            next_sibling: match next {
                Option::Some(n) => Some(n),
                Option::None => detached[ns.index as int].next_sibling,
            },
            ..detached[ns.index as int]
        },
    );
    let self_linked = sibling_linked.update(
        s.index as int,
        Node { next_sibling: Some(ns), ..sibling_linked[s.index as int] },
    );
    match next {
        Option::Some(n) => self_linked.update(
            n.index as int,
            Node { previous_sibling: Some(ns), ..self_linked[n.index as int] },
        ),
        Option::None => match parent {
            Option::Some(p) => self_linked.update(
                p.index as int,
                Node { last_child: Some(ns), ..self_linked[p.index as int] },
            ),
            Option::None => self_linked,
        },
    }
}

/// The node pool after inserting node `ns` as the sibling right before
/// node `s`: the mirror image of `spec_insert_after`.
pub open spec fn spec_insert_before<T>(nodes: Seq<Node<T>>, s: NodeId, ns: NodeId) -> Seq<Node<T>> {
    let detached = spec_detach(nodes, ns);
    let parent = detached[s.index as int].parent;
    let prev = detached[s.index as int].previous_sibling;
    let sibling_linked = detached.update(
        ns.index as int,
        Node {
            parent: parent,
            next_sibling: Some(s),
            previous_sibling: match prev {
                Option::Some(n) => Some(n),
                Option::None => detached[ns.index as int].previous_sibling,
            },
            ..detached[ns.index as int]
        },
    );
    let self_linked = sibling_linked.update(
        s.index as int,
        Node { previous_sibling: Some(ns), ..sibling_linked[s.index as int] },
    );
    match prev {
        Option::Some(n) => self_linked.update(
            n.index as int,
            Node { next_sibling: Some(ns), ..self_linked[n.index as int] },
        ),
        Option::None => match parent {
            Option::Some(p) => self_linked.update(
                p.index as int,
                Node { first_child: Some(ns), ..self_linked[p.index as int] },
            ),
            Option::None => self_linked,
        },
    }
}

/// A tree kept in a single node pool: every node lives in one `Vec` and
/// links to its relatives by index, so the tree can be moved or shared
/// like the `Vec` itself.
#[derive(Debug)]
pub struct VecTree<T> {
    pub nodes: Vec<Node<T>>,
}

impl<T> VecTree<T> {
    /// Well-formedness: every link of every node points into the pool.
    pub open spec fn wf(self) -> bool {
        forall|i: int|
            0 <= i < self.nodes@.len() ==> node_links_in_bounds(
                #[trigger] self.nodes@[i],
                self.nodes@.len(),
            )
    }

    pub fn new() -> (r: VecTree<T>)
        ensures
            r.wf(),
            r.nodes@.len() == 0,
    {
        VecTree { nodes: Vec::new() }
    }

    /// Adds a fresh, unlinked node holding `data` to the pool and returns
    /// its handle.
    pub fn new_node(&mut self, data: T) -> (r: NodeId)
        requires
            old(self).wf(),
        ensures
            final(self).wf(),
            r.index == old(self).nodes@.len(),
            final(self).nodes@.len() == old(self).nodes@.len() + 1,
            forall|i: int|
                0 <= i < old(self).nodes@.len() ==> final(self).nodes@[i] == old(self).nodes@[i],
            final(self).nodes@[r.index as int].parent is None,
            final(self).nodes@[r.index as int].previous_sibling is None,
            final(self).nodes@[r.index as int].next_sibling is None,
            final(self).nodes@[r.index as int].first_child is None,
            final(self).nodes@[r.index as int].last_child is None,
            final(self).nodes@[r.index as int].data == data,
    {
        let index = self.get_free_index();

        self.nodes.push(
            Node {
                parent: None,
                first_child: None,
                last_child: None,
                previous_sibling: None,
                next_sibling: None,
                data: data,
            },
        );

        NodeId { index }
    }

    fn get_free_index(&self) -> (r: usize)
        ensures
            r == self.nodes@.len(),
    {
        self.nodes.len()
    }

    /// The node behind `id`, or `None` for a handle the pool has never
    /// issued.
    pub fn get(&self, id: NodeId) -> (r: Option<&Node<T>>)
        ensures
            id.index < self.nodes@.len() ==> (r matches Some(n) && *n == self.nodes@[id.index as int]),
            id.index >= self.nodes@.len() ==> r is None,
    {
        if id.index < self.nodes.len() {
            Some(&self.nodes[id.index])
        } else {
            None
        }
    }

    /// Mutable access to the node behind `id`, or `None` for a handle the
    /// pool has never issued.
    pub fn get_mut(&mut self, id: NodeId) -> (r: Option<&mut Node<T>>)
        requires
            old(self).wf(),
        ensures
            id.index < old(self).nodes@.len() ==> (r matches Some(n) && *n == old(
                self,
            ).nodes@[id.index as int] && final(self).nodes@ == old(self).nodes@.update(
                id.index as int,
                *final(n),
            )),
            id.index >= old(self).nodes@.len() ==> r is None && *final(self) == *old(self),
    {
        if id.index < self.nodes.len() {
            Some(&mut self.nodes[id.index])
        } else {
            None
        }
    }

    /// Removes every node; all previously issued handles become stale.
    pub fn clear(&mut self)
        ensures
            final(self).wf(),
            final(self).nodes@.len() == 0,
    {
        self.nodes.clear();
    }
}

impl NodeId {
    /// Appends `new_child` as the last child of this node, detaching it
    /// first from wherever it currently hangs.
    pub fn append_child<T>(self, new_child: NodeId, tree: &mut VecTree<T>)
        requires
            old(tree).wf(),
            self.index < old(tree).nodes@.len(),
            new_child.index < old(tree).nodes@.len(),
            self.index != new_child.index,
        ensures
            final(tree).wf(),
            final(tree).nodes@ == spec_append_child(old(tree).nodes@, self, new_child),
            final(tree).nodes@.len() == old(tree).nodes@.len(),
            forall|i: int|
                0 <= i < old(tree).nodes@.len() ==> final(tree).nodes@[i].data == old(
                    tree,
                ).nodes@[i].data,
            final(tree).nodes@[new_child.index as int].parent == Some(self),
            final(tree).nodes@[self.index as int].last_child == Some(new_child),
    {
        new_child.detach(tree);

        let last_child_opt = {
            let self_borrow = &mut tree.nodes[self.index];
            let last_child_opt = self_borrow.last_child;
            self_borrow.last_child = Some(new_child);
            last_child_opt
        };
        {
            let new_child_borrow = &mut tree.nodes[new_child.index];
            new_child_borrow.parent = Some(self);
            if let Some(last_child) = last_child_opt {
                new_child_borrow.previous_sibling = Some(last_child);
            }
        }
        if last_child_opt.is_none() {
            let self_borrow = &mut tree.nodes[self.index];
            self_borrow.first_child = Some(new_child);
        }
        if let Some(last_child) = last_child_opt {
            let last_borrow = &mut tree.nodes[last_child.index];
            last_borrow.next_sibling = Some(new_child);
        }

        proof {
            assert(tree.nodes@ =~= spec_append_child(old(tree).nodes@, self, new_child));
        }
    }

    /// Prepends `new_child` as the first child of this node, detaching it
    /// first from wherever it currently hangs.
    pub fn prepend_child<T>(self, new_child: NodeId, tree: &mut VecTree<T>)
        requires
            old(tree).wf(),
            self.index < old(tree).nodes@.len(),
            new_child.index < old(tree).nodes@.len(),
            self.index != new_child.index,
        ensures
            final(tree).wf(),
            final(tree).nodes@ == spec_prepend_child(old(tree).nodes@, self, new_child),
            final(tree).nodes@.len() == old(tree).nodes@.len(),
            forall|i: int|
                0 <= i < old(tree).nodes@.len() ==> final(tree).nodes@[i].data == old(
                    tree,
                ).nodes@[i].data,
            final(tree).nodes@[new_child.index as int].parent == Some(self),
            final(tree).nodes@[self.index as int].first_child == Some(new_child),
    {
        new_child.detach(tree);

        let first_child_opt = {
            let self_borrow = &mut tree.nodes[self.index];
            let first_child_opt = self_borrow.first_child;
            self_borrow.first_child = Some(new_child);
            first_child_opt
        };
        {
            let new_child_borrow = &mut tree.nodes[new_child.index];
            new_child_borrow.parent = Some(self);
            if let Some(first_child) = first_child_opt {
                new_child_borrow.next_sibling = Some(first_child);
            }
        }
        if first_child_opt.is_none() {
            let self_borrow = &mut tree.nodes[self.index];
            self_borrow.last_child = Some(new_child);
        }
        if let Some(first_child) = first_child_opt {
            let first_borrow = &mut tree.nodes[first_child.index];
            first_borrow.previous_sibling = Some(new_child);
        }

        proof {
            assert(tree.nodes@ =~= spec_prepend_child(old(tree).nodes@, self, new_child));
        }
    }

    /// Unhooks this node from its parent and siblings. The node keeps its
    /// children; its old neighbors (or, at either end, the old parent's
    /// child links) are joined around the gap.
    pub fn detach<T>(self, tree: &mut VecTree<T>)
        requires
            old(tree).wf(),
            self.index < old(tree).nodes@.len(),
        ensures
            final(tree).wf(),
            final(tree).nodes@ == spec_detach(old(tree).nodes@, self),
            final(tree).nodes@.len() == old(tree).nodes@.len(),
            forall|i: int|
                0 <= i < old(tree).nodes@.len() ==> final(tree).nodes@[i].data == old(
                    tree,
                ).nodes@[i].data,
    {
        let (parent, previous_sibling, next_sibling) = {
            let node = &mut tree.nodes[self.index];
            let links = (node.parent, node.previous_sibling, node.next_sibling);
            node.parent = None;
            node.previous_sibling = None;
            node.next_sibling = None;
            links
        };

        if let Some(next_sibling) = next_sibling {
            let n = &mut tree.nodes[next_sibling.index];
            n.previous_sibling = previous_sibling;
        } else if let Some(parent) = parent {
            let n = &mut tree.nodes[parent.index];
            n.last_child = previous_sibling;
        }

        if let Some(previous_sibling) = previous_sibling {
            let n = &mut tree.nodes[previous_sibling.index];
            n.next_sibling = next_sibling;
        } else if let Some(parent) = parent {
            let n = &mut tree.nodes[parent.index];
            n.first_child = next_sibling;
        }

        proof {
            assert(tree.nodes@ =~= spec_detach(old(tree).nodes@, self));
        }
    }

    /// Inserts `new_sibling` right after this node, under the same parent,
    /// detaching it first from wherever it currently hangs.
    pub fn insert_after<T>(self, new_sibling: NodeId, tree: &mut VecTree<T>)
        requires
            old(tree).wf(),
            self.index < old(tree).nodes@.len(),
            new_sibling.index < old(tree).nodes@.len(),
            self.index != new_sibling.index,
        ensures
            final(tree).wf(),
            final(tree).nodes@ == spec_insert_after(old(tree).nodes@, self, new_sibling),
            final(tree).nodes@.len() == old(tree).nodes@.len(),
            forall|i: int|
                0 <= i < old(tree).nodes@.len() ==> final(tree).nodes@[i].data == old(
                    tree,
                ).nodes@[i].data,
            final(tree).nodes@[self.index as int].next_sibling == Some(new_sibling),
    {
        new_sibling.detach(tree);

        let (parent_opt, next_sibling_opt) = {
            let self_borrow = &mut tree.nodes[self.index];
            let parent_opt = self_borrow.parent;
            let next_sibling_opt = self_borrow.next_sibling;
            self_borrow.next_sibling = Some(new_sibling);
            (parent_opt, next_sibling_opt)
        };
        {
            let new_sibling_borrow = &mut tree.nodes[new_sibling.index];
            new_sibling_borrow.parent = parent_opt;
            new_sibling_borrow.previous_sibling = Some(self);
            if let Some(next_sibling) = next_sibling_opt {
                new_sibling_borrow.next_sibling = Some(next_sibling);
            }
        }

        if let Some(next_sibling) = next_sibling_opt {
            let n = &mut tree.nodes[next_sibling.index];
            n.previous_sibling = Some(new_sibling);
        } else if let Some(parent) = parent_opt {
            let n = &mut tree.nodes[parent.index];
            n.last_child = Some(new_sibling);
        }

        proof {
            assert(tree.nodes@ =~= spec_insert_after(old(tree).nodes@, self, new_sibling));
        }
    }

    /// Inserts `new_sibling` right before this node, under the same
    /// parent, detaching it first from wherever it currently hangs.
    pub fn insert_before<T>(self, new_sibling: NodeId, tree: &mut VecTree<T>)
        requires
            old(tree).wf(),
            self.index < old(tree).nodes@.len(),
            new_sibling.index < old(tree).nodes@.len(),
            self.index != new_sibling.index,
        ensures
            final(tree).wf(),
            final(tree).nodes@ == spec_insert_before(old(tree).nodes@, self, new_sibling),
            final(tree).nodes@.len() == old(tree).nodes@.len(),
            forall|i: int|
                0 <= i < old(tree).nodes@.len() ==> final(tree).nodes@[i].data == old(
                    tree,
                ).nodes@[i].data,
            final(tree).nodes@[self.index as int].previous_sibling == Some(new_sibling),
    {
        new_sibling.detach(tree);

        let (parent_opt, previous_sibling_opt) = {
            let self_borrow = &mut tree.nodes[self.index];
            let parent_opt = self_borrow.parent;
            let previous_sibling_opt = self_borrow.previous_sibling;
            self_borrow.previous_sibling = Some(new_sibling);
            (parent_opt, previous_sibling_opt)
        };
        {
            let new_sibling_borrow = &mut tree.nodes[new_sibling.index];
            new_sibling_borrow.parent = parent_opt;
            new_sibling_borrow.next_sibling = Some(self);
            if let Some(previous_sibling) = previous_sibling_opt {
                new_sibling_borrow.previous_sibling = Some(previous_sibling);
            }
        }

        if let Some(previous_sibling) = previous_sibling_opt {
            let n = &mut tree.nodes[previous_sibling.index];
            n.next_sibling = Some(new_sibling);
        } else if let Some(parent) = parent_opt {
            let n = &mut tree.nodes[parent.index];
            n.first_child = Some(new_sibling);
        }

        proof {
            assert(tree.nodes@ =~= spec_insert_before(old(tree).nodes@, self, new_sibling));
        }
    }
}

/// Which link a chain walk follows from one node to the next.
#[derive(Debug, Copy, Clone, PartialEq, Eq, Structural)]
pub enum LinkKind {
    Parent,
    PreviousSibling,
    NextSibling,
}

/// The link of `n` that a `kind` walk follows.
pub open spec fn link_step<T>(kind: LinkKind, n: Node<T>) -> Option<NodeId> {
    match kind {
        LinkKind::Parent => n.parent,
        LinkKind::PreviousSibling => n.previous_sibling,
        LinkKind::NextSibling => n.next_sibling,
    }
}

/// The handles reached from `start` by repeatedly following `kind` links,
/// cut off after `fuel` nodes.
///
/// In a well-formed acyclic tree a chain visits each node at most once, so
/// a fuel of the pool size never cuts anything off; the cap only stops a
/// walk over a cyclically linked pool, which would otherwise not terminate.
pub open spec fn link_chain<T>(
    nodes: Seq<Node<T>>,
    start: Option<NodeId>,
    kind: LinkKind,
    fuel: nat,
) -> Seq<NodeId>
    decreases fuel,
{
    if fuel == 0 {
        Seq::empty()
    } else {
        match start {
            Option::None => Seq::empty(),
            Option::Some(id) => if id.index < nodes.len() {
                seq![id] + link_chain(
                    nodes,
                    link_step(kind, nodes[id.index as int]),
                    kind,
                    (fuel - 1) as nat,
                )
            } else {
                seq![id]
            },
        }
    }
}

/// Collects the chain of `kind` links that begins at `start`.
fn follow_links<T>(tree: &VecTree<T>, start: Option<NodeId>, kind: LinkKind) -> (r: Vec<NodeId>)
    requires
        tree.wf(),
        link_in_bounds(start, tree.nodes@.len()),
    ensures
        r@ == link_chain(tree.nodes@, start, kind, tree.nodes@.len()),
{
    let mut r: Vec<NodeId> = Vec::new();
    let mut cur = start;
    let mut fuel: usize = tree.nodes.len();

    proof {
        assert(Seq::<NodeId>::empty() + link_chain(tree.nodes@, start, kind, tree.nodes@.len())
            =~= link_chain(tree.nodes@, start, kind, tree.nodes@.len()));
    }

    while fuel > 0 && cur.is_some()
        invariant
            tree.wf(),
            fuel <= tree.nodes@.len(),
            link_in_bounds(cur, tree.nodes@.len()),
            link_chain(tree.nodes@, start, kind, tree.nodes@.len()) == r@ + link_chain(
                tree.nodes@,
                cur,
                kind,
                fuel as nat,
            ),
        decreases fuel,
    {
        let id = match cur {
            Some(id) => id,
            None => NodeId { index: 0 },
        };
        let ghost r_before = r@;
        let ghost cur_before = cur;
        let ghost fuel_before = fuel;

        r.push(id);
        let node = &tree.nodes[id.index];
        cur = match kind {
            LinkKind::Parent => node.parent,
            LinkKind::PreviousSibling => node.previous_sibling,
            LinkKind::NextSibling => node.next_sibling,
        };
        fuel = fuel - 1;

        proof {
            assert(link_chain(tree.nodes@, cur_before, kind, fuel_before as nat) == seq![id]
                + link_chain(tree.nodes@, cur, kind, fuel as nat));
            assert(r@ =~= r_before + seq![id]);
            assert(r_before + seq![id] + link_chain(tree.nodes@, cur, kind, fuel as nat)
                =~= r_before + link_chain(tree.nodes@, cur_before, kind, fuel_before as nat));
        }
    }

    proof {
        assert(link_chain(tree.nodes@, cur, kind, fuel as nat) =~= Seq::<NodeId>::empty());
        assert(r@ + Seq::<NodeId>::empty() =~= r@);
    }

    r
}

/// An edge of the depth-first traversal: entering a node (before its
/// descendants) or leaving it (after its descendants).
#[derive(Debug, Clone, Copy)]
pub enum NodeEdge<T> {
    Start(T),
    End(T),
}

/// An edge either is absent or names a node below `len`.
pub open spec fn edge_in_bounds(e: Option<NodeEdge<NodeId>>, len: nat) -> bool {
    match e {
        Option::None => true,
        Option::Some(NodeEdge::Start(n)) => n.index < len,
        Option::Some(NodeEdge::End(n)) => n.index < len,
    }
}

/// One step of the depth-first walk rooted at `root`: entering a node
/// descends to its first child (or leaves it again if it has none);
/// leaving a node moves to its next sibling, or leaves its parent, and the
/// walk ends when the root itself is left.
pub open spec fn spec_traverse_step<T>(
    nodes: Seq<Node<T>>,
    root: NodeId,
    e: NodeEdge<NodeId>,
) -> Option<NodeEdge<NodeId>> {
    match e {
        NodeEdge::Start(node) => match nodes[node.index as int].first_child {
            Option::Some(fc) => Some(NodeEdge::Start(fc)),
            Option::None => Some(NodeEdge::End(node)),
        },
        NodeEdge::End(node) => if node.index == root.index {
            Option::None
        } else {
            match nodes[node.index as int].next_sibling {
                Option::Some(ns) => Some(NodeEdge::Start(ns)),
                Option::None => match nodes[node.index as int].parent {
                    Option::Some(p) => Some(NodeEdge::End(p)),
                    Option::None => Option::None,
                },
            }
        },
    }
}

/// The edges that the depth-first walk emits from `e` on, cut off after
/// `fuel` steps.
pub open spec fn spec_traverse_seq<T>(
    nodes: Seq<Node<T>>,
    root: NodeId,
    e: Option<NodeEdge<NodeId>>,
    fuel: nat,
) -> Seq<NodeEdge<NodeId>>
    decreases fuel,
{
    if fuel == 0 {
        Seq::empty()
    } else {
        match e {
            Option::None => Seq::empty(),
            Option::Some(edge) => seq![edge] + spec_traverse_seq(
                nodes,
                root,
                spec_traverse_step(nodes, root, edge),
                (fuel - 1) as nat,
            ),
        }
    }
}

/// The nodes named by the `Start` edges of a traversal, in order: the
/// depth-first pre-order of the walked subtree.
pub open spec fn start_nodes(edges: Seq<NodeEdge<NodeId>>) -> Seq<NodeId>
    decreases edges.len(),
{
    if edges.len() == 0 {
        Seq::empty()
    } else {
        start_nodes(edges.drop_last()) + match edges.last() {
            NodeEdge::Start(n) => seq![n],
            NodeEdge::End(_) => Seq::empty(),
        }
    }
}

/// The step budget that always suffices for a full depth-first walk of an
/// acyclic pool: every node is entered at most once and left at most once,
/// plus one step to observe the end of the walk.
pub open spec fn traverse_fuel(len: nat) -> nat {
    2 * len + 1
}

/// The state of a depth-first walk over a `VecTree`, rooted at `root`:
/// `next` is the edge the walk will emit next, or `None` once it is done.
#[derive(Debug, Clone, Copy)]
pub struct Traverse {
    pub root: NodeId,
    pub next: Option<NodeEdge<NodeId>>,
}

impl Traverse {
    /// Emits the current edge and advances the walk by one step of
    /// `spec_traverse_step`.
    pub fn next<T>(&mut self, tree: &VecTree<T>) -> (r: Option<NodeEdge<NodeId>>)
        requires
            tree.wf(),
            edge_in_bounds(old(self).next, tree.nodes@.len()),
        ensures
            r == old(self).next,
            final(self).root == old(self).root,
            final(self).next == (match old(self).next {
                Option::None => Option::<NodeEdge<NodeId>>::None,
                Option::Some(e) => spec_traverse_step(tree.nodes@, old(self).root, e),
            }),
            edge_in_bounds(final(self).next, tree.nodes@.len()),
    {
        match self.next {
            None => None,
            Some(item) => {
                self.next = match item {
                    NodeEdge::Start(node) => {
                        let n = &tree.nodes[node.index];
                        match n.first_child {
                            Some(first_child) => Some(NodeEdge::Start(first_child)),
                            None => Some(NodeEdge::End(node)),
                        }
                    },
                    NodeEdge::End(node) => {
                        if node.index == self.root.index {
                            None
                        } else {
                            let n = &tree.nodes[node.index];
                            match n.next_sibling {
                                Some(next_sibling) => Some(NodeEdge::Start(next_sibling)),
                                None => match n.parent {
                                    Some(parent) => Some(NodeEdge::End(parent)),
                                    None => None,
                                },
                            }
                        }
                    },
                };
                Some(item)
            },
        }
    }
}

impl NodeId {
    /// The handles of this node's children, first to last.
    pub fn children<T>(self, tree: &VecTree<T>) -> (r: Vec<NodeId>)
        requires
            tree.wf(),
            self.index < tree.nodes@.len(),
        ensures
            r@ == link_chain(
                tree.nodes@,
                tree.nodes@[self.index as int].first_child,
                LinkKind::NextSibling,
                tree.nodes@.len(),
            ),
    {
        let node = &tree.nodes[self.index];
        follow_links(tree, node.first_child, LinkKind::NextSibling)
    }

    /// The handles of this node and the siblings before it, nearest first.
    pub fn preceding_siblings<T>(self, tree: &VecTree<T>) -> (r: Vec<NodeId>)
        requires
            tree.wf(),
            self.index < tree.nodes@.len(),
        ensures
            r@ == link_chain(
                tree.nodes@,
                Some(self),
                LinkKind::PreviousSibling,
                tree.nodes@.len(),
            ),
    {
        follow_links(tree, Some(self), LinkKind::PreviousSibling)
    }

    /// The handles of this node and the siblings after it, nearest first.
    pub fn following_siblings<T>(self, tree: &VecTree<T>) -> (r: Vec<NodeId>)
        requires
            tree.wf(),
            self.index < tree.nodes@.len(),
        ensures
            r@ == link_chain(tree.nodes@, Some(self), LinkKind::NextSibling, tree.nodes@.len()),
    {
        follow_links(tree, Some(self), LinkKind::NextSibling)
    }

    /// The handles of this node and its ancestors, nearest first.
    pub fn ancestors<T>(self, tree: &VecTree<T>) -> (r: Vec<NodeId>)
        requires
            tree.wf(),
            self.index < tree.nodes@.len(),
        ensures
            r@ == link_chain(tree.nodes@, Some(self), LinkKind::Parent, tree.nodes@.len()),
    {
        follow_links(tree, Some(self), LinkKind::Parent)
    }

    /// The handles of this node and its descendants, in depth-first
    /// pre-order: every parent appears before its children.
    ///
    /// The pool must be small enough for the walk's step budget of
    /// `2 * len + 1` to fit the loop counter.
    pub fn descendants<T>(self, tree: &VecTree<T>) -> (r: Vec<NodeId>)
        requires
            tree.wf(),
            self.index < tree.nodes@.len(),
            tree.nodes@.len() < 0x4000_0000,
        ensures
            r@ == start_nodes(
                spec_traverse_seq(
                    tree.nodes@,
                    self,
                    Some(NodeEdge::Start(self)),
                    traverse_fuel(tree.nodes@.len()),
                ),
            ),
    {
        let mut traverse = Traverse { root: self, next: Some(NodeEdge::Start(self)) };
        let mut r: Vec<NodeId> = Vec::new();
        let mut fuel: usize = 2 * tree.nodes.len() + 1;
        let ghost total = spec_traverse_seq(
            tree.nodes@,
            self,
            Some(NodeEdge::Start(self)),
            traverse_fuel(tree.nodes@.len()),
        );
        let ghost mut visited: Seq<NodeEdge<NodeId>> = Seq::empty();

        proof {
            assert(visited + total =~= total);
            assert(r@ =~= start_nodes(visited));
        }

        while fuel > 0 && traverse.next.is_some()
            invariant
                tree.wf(),
                traverse.root == self,
                edge_in_bounds(traverse.next, tree.nodes@.len()),
                fuel <= traverse_fuel(tree.nodes@.len()),
                total == visited + spec_traverse_seq(
                    tree.nodes@,
                    self,
                    traverse.next,
                    fuel as nat,
                ),
                r@ == start_nodes(visited),
            decreases fuel,
        {
            let ghost visited_before = visited;
            let ghost next_before = traverse.next;
            let ghost fuel_before = fuel;
            let ghost r_before = r@;

            match traverse.next(tree) {
                Some(edge) => {
                    match edge {
                        NodeEdge::Start(node) => {
                            r.push(node);
                        },
                        NodeEdge::End(_) => {},
                    }
                    proof {
                        visited = visited_before + seq![edge];
                        assert(spec_traverse_seq(tree.nodes@, self, next_before, fuel_before as nat)
                            == seq![edge] + spec_traverse_seq(
                            tree.nodes@,
                            self,
                            traverse.next,
                            (fuel_before - 1) as nat,
                        ));
                        assert(visited_before + (seq![edge] + spec_traverse_seq(
                            tree.nodes@,
                            self,
                            traverse.next,
                            (fuel_before - 1) as nat,
                        )) =~= visited + spec_traverse_seq(
                            tree.nodes@,
                            self,
                            traverse.next,
                            (fuel_before - 1) as nat,
                        ));
                        assert(visited.drop_last() =~= visited_before);
                        assert(visited.last() == edge);
                        match edge {
                            NodeEdge::Start(node) => {
                                assert(r@ =~= start_nodes(visited_before) + seq![node]);
                            },
                            NodeEdge::End(_) => {
                                assert(start_nodes(visited) =~= start_nodes(visited_before));
                            },
                        }
                    }
                },
                None => {},
            }
            fuel = fuel - 1;
        }

        proof {
            assert(spec_traverse_seq(tree.nodes@, self, traverse.next, fuel as nat)
                =~= Seq::<NodeEdge<NodeId>>::empty());
            assert(visited + Seq::<NodeEdge<NodeId>>::empty() =~= visited);
        }

        r
    }
}

/// An edge of the depth-first traversal together with the depth of its
/// node below the walk's root.
#[derive(Debug, Clone, Copy)]
pub enum NodeEdgeWithDepth<T> {
    Start(T, u32),
    End(T, u32),
}

/// A depth-carrying edge either is absent or names a node below `len`.
pub open spec fn depth_edge_in_bounds(e: Option<NodeEdgeWithDepth<NodeId>>, len: nat) -> bool {
    match e {
        Option::None => true,
        Option::Some(NodeEdgeWithDepth::Start(n, _)) => n.index < len,
        Option::Some(NodeEdgeWithDepth::End(n, _)) => n.index < len,
    }
}

/// One step of the depth-carrying walk: as `spec_traverse_step`, with the
/// depth raised on descending to a child and lowered on leaving a parent.
///
/// On a cyclically linked pool the depth counter could leave the range of
/// `u32`; the walk stops there instead of wrapping. Neither bound is ever
/// reached on a well-formed acyclic tree walked from its root.
pub open spec fn spec_traverse_step_with_depth<T>(
    nodes: Seq<Node<T>>,
    root: NodeId,
    e: NodeEdgeWithDepth<NodeId>,
) -> Option<NodeEdgeWithDepth<NodeId>> {
    match e {
        NodeEdgeWithDepth::Start(node, depth) => match nodes[node.index as int].first_child {
            Option::Some(fc) => if depth < u32::MAX {
                Some(NodeEdgeWithDepth::Start(fc, (depth + 1) as u32))
            } else {
                Option::None
            },
            Option::None => Some(NodeEdgeWithDepth::End(node, depth)),
        },
        NodeEdgeWithDepth::End(node, depth) => if node.index == root.index {
            Option::None
        } else {
            match nodes[node.index as int].next_sibling {
                Option::Some(ns) => Some(NodeEdgeWithDepth::Start(ns, depth)),
                Option::None => match nodes[node.index as int].parent {
                    Option::Some(p) => if depth > 0 {
                        Some(NodeEdgeWithDepth::End(p, (depth - 1) as u32))
                    } else {
                        Option::None
                    },
                    Option::None => Option::None,
                },
            }
        },
    }
}

/// The depth-carrying edges that the walk emits from `e` on, cut off after
/// `fuel` steps.
pub open spec fn spec_traverse_seq_with_depth<T>(
    nodes: Seq<Node<T>>,
    root: NodeId,
    e: Option<NodeEdgeWithDepth<NodeId>>,
    fuel: nat,
) -> Seq<NodeEdgeWithDepth<NodeId>>
    decreases fuel,
{
    if fuel == 0 {
        Seq::empty()
    } else {
        match e {
            Option::None => Seq::empty(),
            Option::Some(edge) => seq![edge] + spec_traverse_seq_with_depth(
                nodes,
                root,
                spec_traverse_step_with_depth(nodes, root, edge),
                (fuel - 1) as nat,
            ),
        }
    }
}

/// The nodes and depths named by the `Start` edges of a depth-carrying
/// traversal, in order.
pub open spec fn start_nodes_with_depth(edges: Seq<NodeEdgeWithDepth<NodeId>>) -> Seq<
    (NodeId, u32),
>
    decreases edges.len(),
{
    if edges.len() == 0 {
        Seq::empty()
    } else {
        start_nodes_with_depth(edges.drop_last()) + match edges.last() {
            NodeEdgeWithDepth::Start(n, d) => seq![(n, d)],
            NodeEdgeWithDepth::End(_, _) => Seq::empty(),
        }
    }
}

/// The state of a depth-carrying depth-first walk over a `VecTree`.
#[derive(Debug, Clone, Copy)]
pub struct TraverseWithDepth {
    pub root: NodeId,
    pub next: Option<NodeEdgeWithDepth<NodeId>>,
}

impl TraverseWithDepth {
    /// Emits the current edge and advances the walk by one step of
    /// `spec_traverse_step_with_depth`.
    pub fn next<T>(&mut self, tree: &VecTree<T>) -> (r: Option<NodeEdgeWithDepth<NodeId>>)
        requires
            tree.wf(),
            depth_edge_in_bounds(old(self).next, tree.nodes@.len()),
        ensures
            r == old(self).next,
            final(self).root == old(self).root,
            final(self).next == (match old(self).next {
                Option::None => Option::<NodeEdgeWithDepth<NodeId>>::None,
                Option::Some(e) => spec_traverse_step_with_depth(tree.nodes@, old(self).root, e),
            }),
            depth_edge_in_bounds(final(self).next, tree.nodes@.len()),
    {
        match self.next {
            None => None,
            Some(item) => {
                self.next = match item {
                    NodeEdgeWithDepth::Start(node, depth) => {
                        let n = &tree.nodes[node.index];
                        match n.first_child {
                            Some(first_child) => {
                                if depth < u32::MAX {
                                    Some(NodeEdgeWithDepth::Start(first_child, depth + 1))
                                } else {
                                    None
                                }
                            },
                            None => Some(NodeEdgeWithDepth::End(node, depth)),
                        }
                    },
                    NodeEdgeWithDepth::End(node, depth) => {
                        if node.index == self.root.index {
                            None
                        } else {
                            let n = &tree.nodes[node.index];
                            match n.next_sibling {
                                Some(next_sibling) => Some(
                                    NodeEdgeWithDepth::Start(next_sibling, depth),
                                ),
                                None => match n.parent {
                                    Some(parent) => {
                                        if depth > 0 {
                                            Some(NodeEdgeWithDepth::End(parent, depth - 1))
                                        } else {
                                            None
                                        }
                                    },
                                    None => None,
                                },
                            }
                        }
                    },
                };
                Some(item)
            },
        }
    }
}

impl NodeId {
    /// The handles of this node and its descendants together with their
    /// depth below this node, in depth-first pre-order.
    ///
    /// The pool must be small enough for the walk's step budget of
    /// `2 * len + 1` to fit the loop counter.
    pub fn descendants_with_depth<T>(self, tree: &VecTree<T>) -> (r: Vec<(NodeId, u32)>)
        requires
            tree.wf(),
            self.index < tree.nodes@.len(),
            tree.nodes@.len() < 0x4000_0000,
        ensures
            r@ == start_nodes_with_depth(
                spec_traverse_seq_with_depth(
                    tree.nodes@,
                    self,
                    Some(NodeEdgeWithDepth::Start(self, 0)),
                    traverse_fuel(tree.nodes@.len()),
                ),
            ),
    {
        let mut traverse = TraverseWithDepth {
            root: self,
            next: Some(NodeEdgeWithDepth::Start(self, 0)),
        };
        let mut r: Vec<(NodeId, u32)> = Vec::new();
        let mut fuel: usize = 2 * tree.nodes.len() + 1;
        let ghost total = spec_traverse_seq_with_depth(
            tree.nodes@,
            self,
            Some(NodeEdgeWithDepth::Start(self, 0)),
            traverse_fuel(tree.nodes@.len()),
        );
        let ghost mut visited: Seq<NodeEdgeWithDepth<NodeId>> = Seq::empty();

        proof {
            assert(visited + total =~= total);
            assert(r@ =~= start_nodes_with_depth(visited));
        }

        while fuel > 0 && traverse.next.is_some()
            invariant
                tree.wf(),
                traverse.root == self,
                depth_edge_in_bounds(traverse.next, tree.nodes@.len()),
                fuel <= traverse_fuel(tree.nodes@.len()),
                total == visited + spec_traverse_seq_with_depth(
                    tree.nodes@,
                    self,
                    traverse.next,
                    fuel as nat,
                ),
                r@ == start_nodes_with_depth(visited),
            decreases fuel,
        {
            let ghost visited_before = visited;
            let ghost next_before = traverse.next;
            let ghost fuel_before = fuel;

            match traverse.next(tree) {
                Some(edge) => {
                    match edge {
                        NodeEdgeWithDepth::Start(node, depth) => {
                            r.push((node, depth));
                        },
                        NodeEdgeWithDepth::End(_, _) => {},
                    }
                    proof {
                        visited = visited_before + seq![edge];
                        assert(spec_traverse_seq_with_depth(
                            tree.nodes@,
                            self,
                            next_before,
                            fuel_before as nat,
                        ) == seq![edge] + spec_traverse_seq_with_depth(
                            tree.nodes@,
                            self,
                            traverse.next,
                            (fuel_before - 1) as nat,
                        ));
                        assert(visited_before + (seq![edge] + spec_traverse_seq_with_depth(
                            tree.nodes@,
                            self,
                            traverse.next,
                            (fuel_before - 1) as nat,
                        )) =~= visited + spec_traverse_seq_with_depth(
                            tree.nodes@,
                            self,
                            traverse.next,
                            (fuel_before - 1) as nat,
                        ));
                        assert(visited.drop_last() =~= visited_before);
                        assert(visited.last() == edge);
                        match edge {
                            NodeEdgeWithDepth::Start(node, depth) => {
                                assert(r@ =~= start_nodes_with_depth(visited_before) + seq![
                                    (node, depth),
                                ]);
                            },
                            NodeEdgeWithDepth::End(_, _) => {
                                assert(start_nodes_with_depth(visited)
                                    =~= start_nodes_with_depth(visited_before));
                            },
                        }
                    }
                },
                None => {},
            }
            fuel = fuel - 1;
        }

        proof {
            assert(spec_traverse_seq_with_depth(tree.nodes@, self, traverse.next, fuel as nat)
                =~= Seq::<NodeEdgeWithDepth<NodeId>>::empty());
            assert(visited + Seq::<NodeEdgeWithDepth<NodeId>>::empty() =~= visited);
        }

        r
    }
}

} // verus!
