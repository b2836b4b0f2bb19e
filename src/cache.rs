//! The node layer's drawn geometry, and the cache that keeps it between frames.
use vstd::prelude::*;
use crate::geometry::{Rect, Size};
use crate::node::{Color, Node};

verus! {

/// One node as drawn: its body filled, its outline stroked.
/// `stroke_width` is in thousandths of a world unit.
#[derive(Clone, Copy, Debug, PartialEq, Eq, Structural)]
pub struct NodeShape {
    pub bounds: Rect,
    pub fill: Color,
    pub stroke: Color,
    pub stroke_width: i64,
}

/// The outline width at scaling `scaling` (thousandths): two and a half units
/// scaled, in thousandths of a unit.
pub open spec fn stroke_width_at(scaling: int) -> int {
    5 * scaling / 2
}

/// How a node is drawn: outlined in red when selected, else in its own colour.
pub open spec fn shape_of(n: Node, scaling: int) -> NodeShape {
    NodeShape {
        bounds: n.bounds,
        fill: n.color,
        stroke: if n.is_selected { Color { r: 255, g: 0, b: 0 } } else { n.color },
        stroke_width: stroke_width_at(scaling) as i64,
    }
}

/// The node layer: every node in store order.
pub open spec fn layer_of(nodes: Seq<Node>, scaling: int) -> Seq<NodeShape> {
    Seq::new(nodes.len(), |i: int| shape_of(nodes[i], scaling))
}

/// Draws one node.
pub fn node_shape(n: &Node, scaling: i64) -> (r: NodeShape)
    requires
        0 <= scaling <= 0x1_0000_0000,
    ensures
        r == shape_of(*n, scaling as int),
{
    let stroke = if n.is_selected { Color::red() } else { n.color };
    NodeShape { bounds: n.bounds, fill: n.color, stroke, stroke_width: 5 * scaling / 2 }
}

/// Draws the node layer.
pub fn node_layer(nodes: &Vec<Node>, scaling: i64) -> (r: Vec<NodeShape>)
    requires
        0 <= scaling <= 0x1_0000_0000,
    ensures
        r@ == layer_of(nodes@, scaling as int),
{
    let mut out: Vec<NodeShape> = Vec::new();
    let mut i: usize = 0;
    while i < nodes.len()
        invariant
            i <= nodes@.len(),
            0 <= scaling <= 0x1_0000_0000,
            out@ =~= layer_of(nodes@, scaling as int).take(i as int),
        decreases nodes@.len() - i,
    {
        out.push(node_shape(&nodes[i], scaling));
        i += 1;
    }
    assert(out@ =~= layer_of(nodes@, scaling as int));
    out
}

fn copy_shapes(v: &Vec<NodeShape>) -> (r: Vec<NodeShape>)
    ensures
        r@ == v@,
{
    let mut out: Vec<NodeShape> = Vec::new();
    let mut i: usize = 0;
    while i < v.len()
        invariant
            i <= v@.len(),
            out@ =~= v@.take(i as int),
        decreases v@.len() - i,
    {
        out.push(v[i]);
        i += 1;
    }
    assert(out@ =~= v@);
    out
}

/// Whether a cache holding `c` holds a layer built for `size`.
pub open spec fn held_for(c: Option<(Size, Seq<NodeShape>)>, size: Size) -> bool {
    match c {
        Some((s, _)) => s == size,
        None => false,
    }
}

/// The layer a cache holding `c` holds (empty when stale).
pub open spec fn held_layer(c: Option<(Size, Seq<NodeShape>)>) -> Seq<NodeShape> {
    match c {
        Some((_, l)) => l,
        None => Seq::empty(),
    }
}

/// The node layer as last built, and the viewport size it was built for.
pub struct RenderCache {
    entry: Option<(Size, Vec<NodeShape>)>,
}

impl RenderCache {
    /// What the cache holds: nothing when stale, else the size and the layer.
    pub closed spec fn view(&self) -> Option<(Size, Seq<NodeShape>)> {
        match self.entry {
            Some((s, l)) => Some((s, l@)),
            None => None,
        }
    }

    pub fn new() -> (c: RenderCache)
        ensures
            c.view() is None,
    {
        RenderCache { entry: None }
    }

    /// Marks the cached layer stale.
    pub fn clear(&mut self)
        ensures
            final(self).view() is None,
    {
        self.entry = None;
    }

    /// Whether a layer built for `size` is held.
    pub fn is_fresh_for(&self, size: Size) -> (r: bool)
        ensures
            r == held_for(self.view(), size),
    {
        match &self.entry {
            Some((s, _)) => *s == size,
            None => false,
        }
    }

    /// The node layer for `size`: the held one when it is fresh for `size`,
    /// else one drawn anew from `nodes` and then held. The flag tells whether
    /// the layer was drawn anew.
    pub fn draw(&mut self, size: Size, nodes: &Vec<Node>, scaling: i64) -> (r: (Vec<NodeShape>, bool))
        requires
            0 <= scaling <= 0x1_0000_0000,
        ensures
            r.1 == !held_for(old(self).view(), size),
            r.1 ==> r.0@ == layer_of(nodes@, scaling as int),
            !r.1 ==> r.0@ == held_layer(old(self).view()),
            final(self).view() == Some((size, r.0@)),
    {
        if self.is_fresh_for(size) {
            match &self.entry {
                Some((_, layer)) => (copy_shapes(layer), false),
                None => (Vec::new(), false),
            }
        } else {
            let layer = node_layer(nodes, scaling);
            let out = copy_shapes(&layer);
            self.entry = Some((size, layer));
            (out, true)
        }
    }
}

} // verus!
