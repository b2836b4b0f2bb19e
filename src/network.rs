//! The canvas program: viewport transform, interaction state machine, and
//! the drawing of the node layer through the render cache.
use vstd::prelude::*;
use crate::cache::{held_for, held_layer, layer_of, NodeShape, RenderCache};
use crate::geometry::{COORD_LIMIT, clamp_coord, div_floor, saturate, Point, Rect, Size};
use crate::node::{ids_unique, find_at, find_index, hit_at, index_of_id, nodes_wf, unselect_all, unselected_all, Color, Node};

verus! {

/// Thousandths in one: scaling one is held as this value.
pub const SCALE_ONE: i64 = 1000;

/// The smallest scaling, in thousandths.
pub const MIN_SCALING: i64 = 100;

/// The largest scaling, in thousandths.
pub const MAX_SCALING: i64 = 2000;

/// A wheel delta of this many steps doubles the scaling.
pub const ZOOM_STEPS: i64 = 30;

/// A message the canvas may hand to its host.
#[derive(Clone, Copy, Debug, PartialEq, Eq, Structural)]
pub enum NetworkMessage {
    Update,
}

#[derive(Clone, Copy, Debug, PartialEq, Eq, Structural)]
pub enum Button {
    Left,
    Right,
    Middle,
    Other(u16),
}

/// A pointer event. The cursor position travels beside the event.
#[derive(Clone, Copy, Debug, PartialEq, Eq, Structural)]
pub enum MouseEvent {
    CursorEntered,
    CursorLeft,
    CursorMoved,
    ButtonPressed(Button),
    ButtonReleased(Button),
    /// A vertical wheel movement, in whole lines or pixels.
    WheelScrolled { y: i32 },
}

#[derive(Clone, Copy, Debug, PartialEq, Eq, Structural)]
pub enum Event {
    Mouse(MouseEvent),
    /// Any event that is not a pointer event.
    Other,
}

/// Whether an event was consumed by the canvas.
#[derive(Clone, Copy, Debug, PartialEq, Eq, Structural)]
pub enum Status {
    Ignored,
    Captured,
}

/// The pointer gesture under way.
#[derive(Clone, Copy, Debug, PartialEq, Eq, Structural)]
pub enum Interaction {
    Idle,
    /// Moving the view: the translation and cursor when the gesture began.
    PanningScreen { translation: Point, start: Point },
    /// Dragging a node: its identity, its position and the cursor when the
    /// gesture began.
    PanningNode { node_id: u32, translation: Point, start: Point },
}

/// The world-space rectangle a viewport shows.
#[derive(Clone, Copy, Debug, PartialEq, Eq, Structural)]
pub struct Region {
    pub x: i64,
    pub y: i64,
    pub width: i64,
    pub height: i64,
}

/// A screen length in world units at scaling `s` (thousandths), rounded down.
pub open spec fn world_len(len: int, s: int) -> int {
    len * SCALE_ONE / s
}

/// The world coordinate of the visible region's near edge along one axis.
pub open spec fn region_start(t: int, s: int, extent: int) -> int {
    -t - world_len(extent, s) / 2
}

/// Screen to world along one axis.
pub open spec fn project_coord(p: int, t: int, s: int, extent: int) -> int {
    world_len(p, s) + region_start(t, s, extent)
}

/// World to screen along one axis: the transform used when drawing.
pub open spec fn unproject_coord(w: int, t: int, s: int, extent: int) -> int {
    (w - region_start(t, s, extent)) * s / (SCALE_ONE as int)
}

/// Screen to world.
pub open spec fn project_point(t: Point, s: int, size: Size, p: Point) -> Point {
    Point {
        x: project_coord(p.x as int, t.x as int, s, size.width as int) as i64,
        y: project_coord(p.y as int, t.y as int, s, size.height as int) as i64,
    }
}

/// `p` relative to the bounds' corner.
pub open spec fn local_of(bounds: Rect, p: Point) -> Point {
    Point { x: (p.x - bounds.x) as i64, y: (p.y - bounds.y) as i64 }
}

/// The cursor relative to the bounds' corner, when it is over the bounds.
pub open spec fn local_cursor(bounds: Rect, cursor: Option<Point>) -> Option<Point> {
    match cursor {
        Some(p) => if bounds.contains_spec(p) {
            Some(local_of(bounds, p))
        } else {
            None
        },
        None => None,
    }
}

/// A local cursor position relative to the centre of a viewport of `size`.
pub open spec fn center_offset(local: Point, size: Size) -> Point {
    Point { x: (local.x - size.width / 2) as i64, y: (local.y - size.height / 2) as i64 }
}

/// A gesture's value along one axis after the cursor went from `start` to `at`.
pub open spec fn pan_coord(t0: int, start: int, at: int, s: int) -> int {
    clamp_coord(t0 + world_len(at - start, s))
}

pub open spec fn panned(t0: Point, start: Point, at: Point, s: int) -> Point {
    Point {
        x: pan_coord(t0.x as int, start.x as int, at.x as int, s) as i64,
        y: pan_coord(t0.y as int, start.y as int, at.y as int, s) as i64,
    }
}

pub open spec fn clamp_scaling(v: int) -> int {
    if v < MIN_SCALING {
        MIN_SCALING as int
    } else if v > MAX_SCALING {
        MAX_SCALING as int
    } else {
        v
    }
}

/// A wheel step changes the scaling unless it would push past its bound.
pub open spec fn zoom_allowed(s: int, y: int) -> bool {
    (y < 0 && s > MIN_SCALING) || (y > 0 && s < MAX_SCALING)
}

/// The scaling after a wheel step of `y`: times `1 + y/30`, clamped.
pub open spec fn zoom_scaling(s: int, y: int) -> int {
    clamp_scaling(s * (ZOOM_STEPS + y) / (ZOOM_STEPS as int))
}

/// The translation along one axis after the scaling went from `s` to `s2`,
/// moved so that the point under a cursor `c` from the centre stays put.
pub open spec fn recenter_coord(t: int, c: int, s: int, s2: int) -> int {
    clamp_coord(t - c * (s2 - s) * SCALE_ONE / (s * s))
}

/// The state of a canvas: nodes, viewport, gesture, and cached layer.
pub struct NetworkView {
    pub nodes: Seq<Node>,
    pub translation: Point,
    pub scaling: int,
    pub interaction: Interaction,
    pub cache: Option<(Size, Seq<NodeShape>)>,
}

impl NetworkView {
    pub open spec fn wf(self) -> bool {
        &&& MIN_SCALING <= self.scaling <= MAX_SCALING
        &&& self.translation.wf()
        &&& nodes_wf(self.nodes)
        &&& ids_unique(self.nodes)
        &&& match self.interaction {
            Interaction::Idle => true,
            Interaction::PanningScreen { translation, start } => translation.wf() && start.wf(),
            Interaction::PanningNode { translation, start, .. } => translation.wf() && start.wf(),
        }
        &&& match self.cache {
            Some((_, layer)) => layer == layer_of(self.nodes, self.scaling),
            None => true,
        }
    }

    /// A left press: select the node under the cursor and start dragging it,
    /// or, over empty space, unselect every node.
    pub open spec fn press_left(self, local: Point, size: Size) -> NetworkView {
        match hit_at(self.nodes, project_point(self.translation, self.scaling, size, local)) {
            Some(id) => match index_of_id(self.nodes, id) {
                Some(i) => NetworkView {
                    nodes: self.nodes.update(i, self.nodes[i].with_selected(true)),
                    interaction: Interaction::PanningNode {
                        node_id: id,
                        translation: Point { x: self.nodes[i].bounds.x, y: self.nodes[i].bounds.y },
                        start: local,
                    },
                    cache: None,
                    ..self
                },
                None => NetworkView { cache: None, ..self },
            },
            None => NetworkView { nodes: unselected_all(self.nodes), cache: None, ..self },
        }
    }

    /// A middle press: start moving the view.
    pub open spec fn press_middle(self, local: Point) -> NetworkView {
        NetworkView {
            interaction: Interaction::PanningScreen { translation: self.translation, start: local },
            ..self
        }
    }

    /// A cursor move: carry the gesture under way along.
    pub open spec fn cursor_moved(self, local: Point) -> NetworkView {
        match self.interaction {
            Interaction::PanningScreen { translation, start } => NetworkView {
                translation: panned(translation, start, local, self.scaling),
                cache: None,
                ..self
            },
            Interaction::PanningNode { node_id, translation, start } => match index_of_id(self.nodes, node_id) {
                Some(i) => NetworkView {
                    nodes: self.nodes.update(
                        i,
                        self.nodes[i].with_pos(panned(translation, start, local, self.scaling)),
                    ),
                    cache: None,
                    ..self
                },
                None => self,
            },
            Interaction::Idle => self,
        }
    }

    /// A wheel step of `y` with the cursor at `offset` from the centre.
    pub open spec fn wheel(self, y: int, offset: Point) -> NetworkView {
        if zoom_allowed(self.scaling, y) {
            let s2 = zoom_scaling(self.scaling, y);
            NetworkView {
                scaling: s2,
                translation: Point {
                    x: recenter_coord(self.translation.x as int, offset.x as int, self.scaling, s2) as i64,
                    y: recenter_coord(self.translation.y as int, offset.y as int, self.scaling, s2) as i64,
                },
                cache: None,
                ..self
            }
        } else {
            self
        }
    }

    /// The state after `event`, and whether the event was consumed.
    pub open spec fn step(self, event: Event, bounds: Rect, cursor: Option<Point>) -> (NetworkView, Status) {
        let v = if event matches Event::Mouse(MouseEvent::ButtonReleased(_)) {
            NetworkView { interaction: Interaction::Idle, ..self }
        } else {
            self
        };
        match local_cursor(bounds, cursor) {
            None => (v, Status::Ignored),
            Some(local) => match event {
                Event::Mouse(MouseEvent::ButtonPressed(Button::Left)) => (v.press_left(local, bounds.size()), Status::Captured),
                Event::Mouse(MouseEvent::ButtonPressed(Button::Middle)) => (v.press_middle(local), Status::Captured),
                Event::Mouse(MouseEvent::ButtonPressed(_)) => (v, Status::Captured),
                Event::Mouse(MouseEvent::ButtonReleased(_)) => (v, Status::Captured),
                Event::Mouse(MouseEvent::CursorMoved) => (
                    v.cursor_moved(local),
                    if v.interaction is Idle { Status::Ignored } else { Status::Captured },
                ),
                Event::Mouse(MouseEvent::WheelScrolled { y }) => (
                    v.wheel(y as int, center_offset(local, bounds.size())),
                    Status::Captured,
                ),
                _ => (v, Status::Ignored),
            },
        }
    }

    /// The node layer a draw for `size` hands out.
    pub open spec fn drawn_layer(self, size: Size) -> Seq<NodeShape> {
        if held_for(self.cache, size) {
            held_layer(self.cache)
        } else {
            layer_of(self.nodes, self.scaling)
        }
    }

    /// Whether a draw for `size` builds the node layer anew.
    pub open spec fn rebuilds(self, size: Size) -> bool {
        !held_for(self.cache, size)
    }

    /// The state after a draw for `size`.
    pub open spec fn after_draw(self, size: Size) -> NetworkView {
        NetworkView { cache: Some((size, self.drawn_layer(size))), ..self }
    }}

/// What a draw hands out: the background, the transform of the node layer
/// (move the origin to `center`, scale by `scaling` thousandths, then move by
/// `translation`), the node layer, and whether it was built anew.
pub struct Drawing {
    pub background: Rect,
    pub background_color: Color,
    pub center: Point,
    pub scaling: i64,
    pub translation: Point,
    pub nodes: Vec<NodeShape>,
    pub rebuilt: bool,
}

/// A pannable, zoomable canvas of nodes.
pub struct Network {
    nodes_cache: RenderCache,
    interaction: Interaction,
    translation: Point,
    scaling: i64,
    nodes: Vec<Node>,
}

impl View for Network {
    type V = NetworkView;

    closed spec fn view(&self) -> NetworkView {
        NetworkView {
            nodes: self.nodes@,
            translation: self.translation,
            scaling: self.scaling as int,
            interaction: self.interaction,
            cache: self.nodes_cache.view(),
        }
    }
}

fn local_position(bounds: &Rect, cursor: Option<Point>) -> (r: Option<Point>)
    requires
        bounds.wf(),
    ensures
        r == local_cursor(*bounds, cursor),
        r matches Some(p) ==> 0 <= p.x <= bounds.width && 0 <= p.y <= bounds.height,
{
    match cursor {
        Some(p) => if bounds.contains(p) {
            Some(Point { x: p.x - bounds.x, y: p.y - bounds.y })
        } else {
            None
        },
        None => None,
    }
}

fn pan_point(t0: Point, start: Point, at: Point, s: i64) -> (r: Point)
    requires
        MIN_SCALING <= s <= MAX_SCALING,
    ensures
        r == panned(t0, start, at, s as int),
        r.wf(),
{
    let dx = div_floor((at.x as i128 - start.x as i128) * 1000, s as i128);
    let dy = div_floor((at.y as i128 - start.y as i128) * 1000, s as i128);
    Point { x: saturate(t0.x as i128 + dx), y: saturate(t0.y as i128 + dy) }
}

impl Network {
    /// A canvas holding one black 100 by 100 node at the origin, unselected,
    /// seen at scaling one with no translation.
    pub fn new() -> (r: Network)
        ensures
            r@.wf(),
            r@.nodes == seq![Node {
                id: 0,
                bounds: Rect { x: 0, y: 0, width: 100, height: 100 },
                color: Color { r: 0, g: 0, b: 0 },
                is_selected: false,
            }],
            r@.translation == (Point { x: 0, y: 0 }),
            r@.scaling == SCALE_ONE,
            r@.interaction is Idle,
            r@.cache is None,
    {
        let n1 = Node::new(0, Rect::new(0, 0, 100, 100), Color::black());
        let mut nodes: Vec<Node> = Vec::new();
        nodes.push(n1);
        let r = Network {
            nodes_cache: RenderCache::new(),
            interaction: Interaction::Idle,
            translation: Point::new(0, 0),
            scaling: SCALE_ONE,
            nodes,
        };
        assert(r@.nodes =~= seq![n1]);
        r
    }

    /// A canvas over `nodes`, seen at scaling one with no translation; none
    /// when a node's corner lies outside the coordinate range or two nodes
    /// share an identity.
    pub fn with_nodes(nodes: Vec<Node>) -> (r: Option<Network>)
        ensures
            r is Some <==> nodes_wf(nodes@) && ids_unique(nodes@),
            r matches Some(n) ==> {
                &&& n@.wf()
                &&& n@.nodes == nodes@
                &&& n@.translation == (Point { x: 0, y: 0 })
                &&& n@.scaling == SCALE_ONE
                &&& n@.interaction is Idle
                &&& n@.cache is None
            },
    {
        let mut i: usize = 0;
        while i < nodes.len()
            invariant
                i <= nodes@.len(),
                forall|a: int| 0 <= a < i ==> #[trigger] nodes@[a].wf(),
                forall|a: int, c: int|
                    #![trigger nodes@[a], nodes@[c]]
                    0 <= a < i && 0 <= c < i && a != c ==> nodes@[a].id != nodes@[c].id,
            decreases nodes@.len() - i,
        {
            let n = nodes[i];
            if n.bounds.x < -COORD_LIMIT || n.bounds.x > COORD_LIMIT || n.bounds.y < -COORD_LIMIT
                || n.bounds.y > COORD_LIMIT {
                assert(!nodes@[i as int].wf());
                return None;
            }
            let mut j: usize = 0;
            while j < i
                invariant
                    j <= i < nodes@.len(),
                    n == nodes@[i as int],
                    forall|c: int| 0 <= c < j ==> #[trigger] nodes@[c].id != n.id,
                decreases i - j,
            {
                if nodes[j].id == n.id {
                    assert(nodes@[j as int].id == nodes@[i as int].id);
                    return None;
                }
                j += 1;
            }
            i += 1;
        }
        Some(Network {
            nodes_cache: RenderCache::new(),
            interaction: Interaction::Idle,
            translation: Point::new(0, 0),
            scaling: SCALE_ONE,
            nodes,
        })
    }

    /// The world-space rectangle that a viewport of `size` shows.
    pub fn visible_region(&self, size: Size) -> (r: Region)
        requires
            self@.wf(),
            size.wf(),
        ensures
            r.width == world_len(size.width as int, self@.scaling),
            r.height == world_len(size.height as int, self@.scaling),
            r.x == region_start(self@.translation.x as int, self@.scaling, size.width as int),
            r.y == region_start(self@.translation.y as int, self@.scaling, size.height as int),
            0 <= r.width <= 1000 * size.width,
            0 <= r.height <= 1000 * size.height,
    {
        let width = div_floor(size.width as i128 * 1000, self.scaling as i128);
        let height = div_floor(size.height as i128 * 1000, self.scaling as i128);
        let x = -(self.translation.x as i128) - width / 2;
        let y = -(self.translation.y as i128) - height / 2;
        Region { x: x as i64, y: y as i64, width: width as i64, height: height as i64 }
    }

    /// Screen to world: the world point under screen point `position`.
    pub fn project(&self, position: Point, size: Size) -> (r: Point)
        requires
            self@.wf(),
            size.wf(),
            position.wf(),
        ensures
            r == project_point(self@.translation, self@.scaling, size, position),
            r.x == project_coord(position.x as int, self@.translation.x as int, self@.scaling, size.width as int),
            r.y == project_coord(position.y as int, self@.translation.y as int, self@.scaling, size.height as int),
    {
        let region = self.visible_region(size);
        let x = div_floor(position.x as i128 * 1000, self.scaling as i128) + region.x as i128;
        let y = div_floor(position.y as i128 * 1000, self.scaling as i128) + region.y as i128;
        Point { x: x as i64, y: y as i64 }
    }

    /// World to screen: where world point `world` is drawn.
    pub fn unproject(&self, world: Point, size: Size) -> (r: Point)
        requires
            self@.wf(),
            size.wf(),
            world.wf(),
        ensures
            r.x == unproject_coord(world.x as int, self@.translation.x as int, self@.scaling, size.width as int),
            r.y == unproject_coord(world.y as int, self@.translation.y as int, self@.scaling, size.height as int),
    {
        let region = self.visible_region(size);
        let dx = world.x as i128 - region.x as i128;
        let dy = world.y as i128 - region.y as i128;
        assert(-0x1_0000_0000_0000_0000 <= dx * self.scaling <= 0x1_0000_0000_0000_0000) by (nonlinear_arith)
            requires
                -0x10_0000_0000_0000 <= dx <= 0x10_0000_0000_0000,
                100 <= self.scaling <= 2000,
        ;
        assert(-0x1_0000_0000_0000_0000 <= dy * self.scaling <= 0x1_0000_0000_0000_0000) by (nonlinear_arith)
            requires
                -0x10_0000_0000_0000 <= dy <= 0x10_0000_0000_0000,
                100 <= self.scaling <= 2000,
        ;
        let x = div_floor(dx * self.scaling as i128, 1000);
        let y = div_floor(dy * self.scaling as i128, 1000);
        Point { x: x as i64, y: y as i64 }
    }

    /// The first node, in store order, whose bounds contain world point `position`.
    pub fn get_node_at_screen(&self, position: Point) -> (r: Option<u32>)
        ensures
            r == hit_at(self@.nodes, position),
    {
        find_at(&self.nodes, position)
    }

    /// Clears every node's selection.
    pub fn unselect_all_nodes(&mut self)
        requires
            old(self)@.wf(),
        ensures
            final(self)@ == (NetworkView { nodes: unselected_all(old(self)@.nodes), cache: None, ..old(self)@ }),
            final(self)@.wf(),
    {
        unselect_all(&mut self.nodes);
        self.nodes_cache.clear();
    }

    fn press_left(&mut self, local: Point, size: Size)
        requires
            old(self)@.wf(),
            local.wf(),
            size.wf(),
        ensures
            final(self)@ == old(self)@.press_left(local, size),
            final(self)@.wf(),
    {
        let ghost before = self@;
        let world = self.project(local, size);
        match find_at(&self.nodes, world) {
            Some(id) => match find_index(&self.nodes, id) {
                Some(i) => {
                    let mut n = self.nodes[i];
                    self.interaction = Interaction::PanningNode {
                        node_id: n.id,
                        translation: n.get_pos(),
                        start: local,
                    };
                    assert(before.nodes[i as int].wf());
                    n.set_selected(true);
                    self.nodes.set(i, n);
                    assert forall|j: int| 0 <= j < self@.nodes.len() implies #[trigger] self@.nodes[j].wf() by {
                        assert(before.nodes[j].wf());
                    }
                },
                None => {},
            },
            None => {
                unselect_all(&mut self.nodes);
                assert(self@.interaction == before.interaction);
                assert forall|j: int| 0 <= j < self@.nodes.len() implies #[trigger] self@.nodes[j].wf() by {
                    assert(before.nodes[j].wf());
                }
            },
        }
        self.nodes_cache.clear();
    }

    fn cursor_moved(&mut self, local: Point)
        requires
            old(self)@.wf(),
        ensures
            final(self)@ == old(self)@.cursor_moved(local),
            final(self)@.wf(),
    {
        let ghost before = self@;
        match self.interaction {
            Interaction::PanningScreen { translation, start } => {
                self.translation = pan_point(translation, start, local, self.scaling);
                self.nodes_cache.clear();
            },
            Interaction::PanningNode { node_id, translation, start } => {
                match find_index(&self.nodes, node_id) {
                    Some(i) => {
                        let pos = pan_point(translation, start, local, self.scaling);
                        let mut n = self.nodes[i];
                        n.set_new_pos(pos);
                        self.nodes.set(i, n);
                        self.nodes_cache.clear();
                        assert forall|j: int| 0 <= j < self@.nodes.len() implies #[trigger] self@.nodes[j].wf() by {
                            if j != i {
                                assert(before.nodes[j].wf());
                            }
                        }
                    },
                    None => {},
                }
            },
            Interaction::Idle => {},
        }
    }

    fn wheel(&mut self, y: i32, offset: Point)
        requires
            old(self)@.wf(),
        ensures
            final(self)@ == old(self)@.wheel(y as int, offset),
            final(self)@.wf(),
    {
        let s = self.scaling;
        if (y < 0 && s > MIN_SCALING) || (y > 0 && s < MAX_SCALING) {
            assert(0 <= s * (ZOOM_STEPS + y) <= 0x1_0000_0000_0000 || s * (ZOOM_STEPS + y) < 0) by (nonlinear_arith)
                requires
                    100 <= s <= 2000,
                    -0x8000_0000 <= y <= 0x8000_0000,
            ;
            assert(-0x1_0000_0000_0000 <= s * (ZOOM_STEPS + y)) by (nonlinear_arith)
                requires
                    100 <= s <= 2000,
                    -0x8000_0000 <= y <= 0x8000_0000,
            ;
            assert(0 < s * s <= 4_000_000) by (nonlinear_arith)
                requires
                    100 <= s <= 2000,
            ;
            let raw = div_floor(s as i128 * (ZOOM_STEPS as i128 + y as i128), ZOOM_STEPS as i128);
            let s2: i64 = if raw < MIN_SCALING as i128 {
                MIN_SCALING
            } else if raw > MAX_SCALING as i128 {
                MAX_SCALING
            } else {
                raw as i64
            };
            let f = (s2 - s) as i128;
            let d = (s * s) as i128;
            assert(-0x8000_0000_0000_0000 * 2000 <= offset.x * f <= 0x8000_0000_0000_0000 * 2000) by (nonlinear_arith)
                requires
                    -0x8000_0000_0000_0000 <= offset.x <= 0x8000_0000_0000_0000,
                    -2000 <= f <= 2000,
            ;
            assert(-0x8000_0000_0000_0000 * 2000 <= offset.y * f <= 0x8000_0000_0000_0000 * 2000) by (nonlinear_arith)
                requires
                    -0x8000_0000_0000_0000 <= offset.y <= 0x8000_0000_0000_0000,
                    -2000 <= f <= 2000,
            ;
            let dx = div_floor(offset.x as i128 * f * 1000, d);
            let dy = div_floor(offset.y as i128 * f * 1000, d);
            self.translation = Point {
                x: saturate(self.translation.x as i128 - dx),
                y: saturate(self.translation.y as i128 - dy),
            };
            self.scaling = s2;
            self.nodes_cache.clear();
        }
    }

    /// Handles one event, given the canvas bounds and the cursor position
    /// (absent when the cursor is not available). A release ends any gesture
    /// first; an event away from the bounds is then ignored.
    pub fn update(&mut self, event: Event, bounds: Rect, cursor: Option<Point>) -> (r: (Status, Option<NetworkMessage>))
        requires
            old(self)@.wf(),
            bounds.wf(),
        ensures
            final(self)@ == old(self)@.step(event, bounds, cursor).0,
            r.0 == old(self)@.step(event, bounds, cursor).1,
            r.1 is None,
            final(self)@.wf(),
            event matches Event::Mouse(MouseEvent::ButtonReleased(_)) ==> final(self)@.interaction is Idle,
    {
        if let Event::Mouse(MouseEvent::ButtonReleased(_)) = event {
            self.interaction = Interaction::Idle;
        }
        let local = match local_position(&bounds, cursor) {
            Some(p) => p,
            None => {
                return (Status::Ignored, None);
            },
        };
        let size = bounds.size_of();
        match event {
            Event::Mouse(MouseEvent::ButtonPressed(button)) => {
                match button {
                    Button::Left => self.press_left(local, size),
                    Button::Middle => {
                        self.interaction = Interaction::PanningScreen {
                            translation: self.translation,
                            start: local,
                        };
                    },
                    _ => {},
                }
                (Status::Captured, None)
            },
            Event::Mouse(MouseEvent::ButtonReleased(_)) => (Status::Captured, None),
            Event::Mouse(MouseEvent::CursorMoved) => {
                let status = match self.interaction {
                    Interaction::Idle => Status::Ignored,
                    _ => Status::Captured,
                };
                self.cursor_moved(local);
                (status, None)
            },
            Event::Mouse(MouseEvent::WheelScrolled { y }) => {
                let offset = Point { x: local.x - size.width / 2, y: local.y - size.height / 2 };
                self.wheel(y, offset);
                (Status::Captured, None)
            },
            _ => (Status::Ignored, None),
        }
    }

    /// Draws a frame for `bounds`: the background, and the node layer, taken
    /// from the cache when it holds one for this size.
    pub fn draw(&mut self, bounds: Rect) -> (r: Drawing)
        requires
            old(self)@.wf(),
            bounds.wf(),
        ensures
            final(self)@ == old(self)@.after_draw(bounds.size()),
            final(self)@.wf(),
            r.nodes@ == old(self)@.drawn_layer(bounds.size()),
            r.nodes@ == layer_of(old(self)@.nodes, old(self)@.scaling),
            r.rebuilt == old(self)@.rebuilds(bounds.size()),
            r.background == (Rect { x: 0, y: 0, width: bounds.width, height: bounds.height }),
            r.background_color == (Color { r: 0x04, g: 0x44, b: 0x48 }),
            r.center == (Point { x: (bounds.width / 2) as i64, y: (bounds.height / 2) as i64 }),
            r.scaling == old(self)@.scaling,
            r.translation == old(self)@.translation,
    {
        let size = bounds.size_of();
        let (nodes, rebuilt) = self.nodes_cache.draw(size, &self.nodes, self.scaling);
        Drawing {
            background: Rect { x: 0, y: 0, width: bounds.width, height: bounds.height },
            background_color: Color { r: 0x04, g: 0x44, b: 0x48 },
            center: Point { x: bounds.width / 2, y: bounds.height / 2 },
            scaling: self.scaling,
            translation: self.translation,
            nodes,
            rebuilt,
        }
    }

    /// The nodes, in store order.
    pub fn nodes(&self) -> (r: &Vec<Node>)
        ensures
            r@ == self@.nodes,
    {
        &self.nodes
    }

    /// The pan offset, in world units.
    pub fn translation(&self) -> (r: Point)
        ensures
            r == self@.translation,
    {
        self.translation
    }

    /// The zoom factor, in thousandths.
    pub fn scaling(&self) -> (r: i64)
        ensures
            r == self@.scaling,
    {
        self.scaling
    }

    /// The gesture under way.
    pub fn interaction(&self) -> (r: Interaction)
        ensures
            r == self@.interaction,
    {
        self.interaction
    }
}

} // verus!
