//! Node records and the ordered store that owns them.
use vstd::prelude::*;
use crate::geometry::{in_coord_range, Point, Rect};

verus! {

/// An RGB colour.
#[derive(Clone, Copy, Debug, PartialEq, Eq, Structural)]
pub struct Color {
    pub r: u8,
    pub g: u8,
    pub b: u8,
}

impl Color {
    pub fn black() -> (c: Color)
        ensures
            c == (Color { r: 0, g: 0, b: 0 }),
    {
        Color { r: 0, g: 0, b: 0 }
    }

    pub fn red() -> (c: Color)
        ensures
            c == (Color { r: 255, g: 0, b: 0 }),
    {
        Color { r: 255, g: 0, b: 0 }
    }
}

/// One node of the diagram: identity, world-space bounds, colour, selection.
#[derive(Clone, Copy, Debug, PartialEq, Eq, Structural)]
pub struct Node {
    pub id: u32,
    pub bounds: Rect,
    pub color: Color,
    pub is_selected: bool,
}

impl Node {
    /// The node's corner lies within the coordinate range.
    pub open spec fn wf(self) -> bool {
        in_coord_range(self.bounds.x as int) && in_coord_range(self.bounds.y as int)
    }

    pub open spec fn with_selected(self, selected: bool) -> Node {
        Node { is_selected: selected, ..self }
    }

    pub open spec fn with_pos(self, pos: Point) -> Node {
        Node { bounds: Rect { x: pos.x, y: pos.y, ..self.bounds }, ..self }
    }

    pub fn new(id: u32, bounds: Rect, color: Color) -> (n: Node)
        ensures
            n == (Node { id, bounds, color, is_selected: false }),
    {
        Node { id, bounds, color, is_selected: false }
    }

    pub fn set_selected(&mut self, selected: bool)
        ensures
            *final(self) == old(self).with_selected(selected),
    {
        self.is_selected = selected;
    }

    pub fn set_new_pos(&mut self, new_pos: Point)
        ensures
            *final(self) == old(self).with_pos(new_pos),
    {
        self.bounds.x = new_pos.x;
        self.bounds.y = new_pos.y;
    }

    pub fn get_pos(&self) -> (p: Point)
        ensures
            p == (Point { x: self.bounds.x, y: self.bounds.y }),
    {
        Point { x: self.bounds.x, y: self.bounds.y }
    }
}

/// Every node of the store is well formed.
pub open spec fn nodes_wf(nodes: Seq<Node>) -> bool {
    forall|i: int| 0 <= i < nodes.len() ==> #[trigger] nodes[i].wf()
}

/// No two nodes of the store share an identity.
pub open spec fn ids_unique(nodes: Seq<Node>) -> bool {
    forall|i: int, j: int|
        #![trigger nodes[i], nodes[j]]
        0 <= i < nodes.len() && 0 <= j < nodes.len() && i != j ==> nodes[i].id != nodes[j].id
}

/// `i` is the first position of the store whose bounds cover `p` (half-open).
pub open spec fn is_first_hit(nodes: Seq<Node>, p: Point, i: int) -> bool {
    &&& 0 <= i < nodes.len()
    &&& nodes[i].bounds.covers_spec(p)
    &&& forall|j: int| 0 <= j < i ==> !(#[trigger] nodes[j].bounds.covers_spec(p))
}

/// The identity of the first node, in store order, whose bounds cover `p`.
pub open spec fn hit_at(nodes: Seq<Node>, p: Point) -> Option<u32> {
    if exists|i: int| is_first_hit(nodes, p, i) {
        Some(nodes[choose|i: int| is_first_hit(nodes, p, i)].id)
    } else {
        None
    }
}

/// `i` is the first position of the store that holds identity `id`.
pub open spec fn is_first_with_id(nodes: Seq<Node>, id: u32, i: int) -> bool {
    &&& 0 <= i < nodes.len()
    &&& nodes[i].id == id
    &&& forall|j: int| 0 <= j < i ==> #[trigger] nodes[j].id != id
}

/// Position of the first node with identity `id`, if any.
pub open spec fn index_of_id(nodes: Seq<Node>, id: u32) -> Option<int> {
    if exists|i: int| is_first_with_id(nodes, id, i) {
        Some(choose|i: int| is_first_with_id(nodes, id, i))
    } else {
        None
    }
}

/// The store with every node unselected.
pub open spec fn unselected_all(nodes: Seq<Node>) -> Seq<Node> {
    Seq::new(nodes.len(), |i: int| nodes[i].with_selected(false))
}

proof fn lemma_first_hit_unique(nodes: Seq<Node>, p: Point, i: int, k: int)
    requires
        is_first_hit(nodes, p, i),
        is_first_hit(nodes, p, k),
    ensures
        i == k,
{
    if i < k {
        assert(!nodes[i].bounds.covers_spec(p));
    } else if k < i {
        assert(!nodes[k].bounds.covers_spec(p));
    }
}

/// With unique identities, a node's own position is where its identity is found.
pub proof fn lemma_index_of_own_id(nodes: Seq<Node>, i: int)
    requires
        ids_unique(nodes),
        0 <= i < nodes.len(),
    ensures
        index_of_id(nodes, nodes[i].id) == Some(i),
{
    let id = nodes[i].id;
    assert forall|j: int| 0 <= j < i implies #[trigger] nodes[j].id != id by {
        assert(nodes[j].id != nodes[i].id);
    }
    assert(is_first_with_id(nodes, id, i));
    let k = choose|k: int| is_first_with_id(nodes, id, k);
    lemma_first_id_unique(nodes, id, i, k);
}

/// The first hit is at position `i`.
pub proof fn lemma_hit_index(nodes: Seq<Node>, p: Point, i: int)
    requires
        is_first_hit(nodes, p, i),
    ensures
        hit_at(nodes, p) == Some(nodes[i].id),
{
    let k = choose|k: int| is_first_hit(nodes, p, k);
    lemma_first_hit_unique(nodes, p, i, k);
}

/// A node of zero or negative width or height is never hit.
pub proof fn lemma_empty_node_never_hit(nodes: Seq<Node>, p: Point, i: int)
    requires
        ids_unique(nodes),
        0 <= i < nodes.len(),
        nodes[i].bounds.width <= 0 || nodes[i].bounds.height <= 0,
    ensures
        hit_at(nodes, p) != Some(nodes[i].id),
{
    if exists|k: int| is_first_hit(nodes, p, k) {
        let k = choose|k: int| is_first_hit(nodes, p, k);
        if k != i {
            assert(nodes[k].id != nodes[i].id);
        }
    }
}

proof fn lemma_first_id_unique(nodes: Seq<Node>, id: u32, i: int, k: int)
    requires
        is_first_with_id(nodes, id, i),
        is_first_with_id(nodes, id, k),
    ensures
        i == k,
{
    if i < k {
        assert(nodes[i].id != id);
    } else if k < i {
        assert(nodes[k].id != id);
    }
}

/// The identity of the first node whose bounds contain the world point `p`.
pub fn find_at(nodes: &Vec<Node>, p: Point) -> (r: Option<u32>)
    ensures
        r == hit_at(nodes@, p),
{
    let mut i: usize = 0;
    while i < nodes.len()
        invariant
            i <= nodes@.len(),
            forall|j: int| 0 <= j < i ==> !(#[trigger] nodes@[j].bounds.covers_spec(p)),
        decreases nodes@.len() - i,
    {
        if nodes[i].bounds.covers(p) {
            proof {
                assert(is_first_hit(nodes@, p, i as int));
                let k = choose|k: int| is_first_hit(nodes@, p, k);
                lemma_first_hit_unique(nodes@, p, i as int, k);
            }
            return Some(nodes[i].id);
        }
        i += 1;
    }
    proof {
        assert forall|k: int| !is_first_hit(nodes@, p, k) by {
            if is_first_hit(nodes@, p, k) {
                assert(!nodes@[k].bounds.covers_spec(p));
            }
        }
    }
    None
}

/// The position of the first node with identity `id`.
pub fn find_index(nodes: &Vec<Node>, id: u32) -> (r: Option<usize>)
    ensures
        match r {
            Some(i) => index_of_id(nodes@, id) == Some(i as int),
            None => index_of_id(nodes@, id) is None,
        },
{
    let mut i: usize = 0;
    while i < nodes.len()
        invariant
            i <= nodes@.len(),
            forall|j: int| 0 <= j < i ==> #[trigger] nodes@[j].id != id,
        decreases nodes@.len() - i,
    {
        if nodes[i].id == id {
            proof {
                assert(is_first_with_id(nodes@, id, i as int));
                let k = choose|k: int| is_first_with_id(nodes@, id, k);
                lemma_first_id_unique(nodes@, id, i as int, k);
            }
            return Some(i);
        }
        i += 1;
    }
    proof {
        assert forall|k: int| !is_first_with_id(nodes@, id, k) by {
            if is_first_with_id(nodes@, id, k) {
                assert(nodes@[k].id != id);
            }
        }
    }
    None
}

/// Clears the selection flag of every node, keeping everything else.
pub fn unselect_all(nodes: &mut Vec<Node>)
    ensures
        final(nodes)@ == unselected_all(old(nodes)@),
{
    let ghost start = nodes@;
    let mut i: usize = 0;
    while i < nodes.len()
        invariant
            i <= nodes@.len(),
            nodes@.len() == start.len(),
            forall|j: int| 0 <= j < i ==> #[trigger] nodes@[j] == start[j].with_selected(false),
            forall|j: int| i <= j < nodes@.len() ==> #[trigger] nodes@[j] == start[j],
        decreases nodes@.len() - i,
    {
        let mut n = nodes[i];
        n.set_selected(false);
        nodes.set(i, n);
        i += 1;
    }
    assert(nodes@ =~= unselected_all(start));
}

} // verus!
