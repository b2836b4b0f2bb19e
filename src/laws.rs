//! Properties of the canvas that relate several operations or hold for
//! every input.
use vstd::prelude::*;
use vstd::arithmetic::div_mod::lemma_fundamental_div_mod;
use crate::geometry::{clamp_coord, in_coord_range, Point, Rect, Size};
use crate::node::{hit_at, ids_unique, index_of_id, is_first_hit, lemma_hit_index, lemma_index_of_own_id};
use crate::network::{
    local_of, project_coord, project_point, recenter_coord, region_start, unproject_coord, world_len,
    zoom_allowed, zoom_scaling, Button,
    Event, Interaction, MouseEvent, NetworkView, MAX_SCALING, MIN_SCALING, SCALE_ONE,
};

verus! {

proof fn lemma_round_trip_axis(d: int, s: int)
    requires
        0 < s,
    ensures
        (d * s / 1000) * 1000 / s <= d,
        (d - (d * s / 1000) * 1000 / s - 1) * s < 1000,
{
    let u = d * s / 1000;
    let r1 = d * s % 1000;
    lemma_fundamental_div_mod(d * s, 1000);
    let f = u * 1000 / s;
    let r2 = (u * 1000) % s;
    lemma_fundamental_div_mod(u * 1000, s);
    assert(f <= d && (d - f - 1) * s < 1000) by (nonlinear_arith)
        requires
            d * s == 1000 * u + r1,
            0 <= r1 < 1000,
            u * 1000 == s * f + r2,
            0 <= r2 < s,
            0 < s,
    ;
}

/// Drawing a world point to the screen and projecting it back gives the
/// point again, or one at most one screen unit's worth of world units below
/// it along each axis (the screen holds whole units).
pub proof fn lemma_project_unproject(t: Point, s: int, size: Size, w: Point)
    requires
        MIN_SCALING <= s <= MAX_SCALING,
    ensures
        ({
            let rx = project_coord(unproject_coord(w.x as int, t.x as int, s, size.width as int), t.x as int, s, size.width as int);
            0 <= w.x - rx && (w.x - rx - 1) * s < SCALE_ONE
        }),
        ({
            let ry = project_coord(unproject_coord(w.y as int, t.y as int, s, size.height as int), t.y as int, s, size.height as int);
            0 <= w.y - ry && (w.y - ry - 1) * s < SCALE_ONE
        }),
{
    lemma_round_trip_axis(w.x - region_start(t.x as int, s, size.width as int), s);
    lemma_round_trip_axis(w.y - region_start(t.y as int, s, size.height as int), s);
}

proof fn lemma_round_trip_screen_axis(p: int, s: int)
    requires
        0 < s,
    ensures
        (p * 1000 / s) * s / 1000 <= p,
        (p - (p * 1000 / s) * s / 1000 - 1) * 1000 < s,
{
    let f = p * 1000 / s;
    let r = (p * 1000) % s;
    lemma_fundamental_div_mod(p * 1000, s);
    let g = f * s / 1000;
    let r1 = (f * s) % 1000;
    lemma_fundamental_div_mod(f * s, 1000);
    assert(g <= p && (p - g - 1) * 1000 < s) by (nonlinear_arith)
        requires
            p * 1000 == s * f + r,
            0 <= r < s,
            f * s == 1000 * g + r1,
            0 <= r1 < 1000,
            0 < s,
    ;
}

/// Projecting a screen point into the world and drawing it again gives the
/// point again, or one at most one world unit's worth of screen units above
/// it along each axis (the world holds whole units).
pub proof fn lemma_unproject_project(t: Point, s: int, size: Size, p: Point)
    requires
        MIN_SCALING <= s <= MAX_SCALING,
    ensures
        ({
            let rx = unproject_coord(project_coord(p.x as int, t.x as int, s, size.width as int), t.x as int, s, size.width as int);
            0 <= p.x - rx && (p.x - rx - 1) * SCALE_ONE < s
        }),
        ({
            let ry = unproject_coord(project_coord(p.y as int, t.y as int, s, size.height as int), t.y as int, s, size.height as int);
            0 <= p.y - ry && (p.y - ry - 1) * SCALE_ONE < s
        }),
{
    lemma_round_trip_screen_axis(p.x as int, s);
    lemma_round_trip_screen_axis(p.y as int, s);
}

/// A wheel step keeps the scaling within its bounds; a step in strictly
/// raises it below the upper bound and leaves it at the bound, and a step out
/// strictly lowers it above the lower bound and leaves it at the bound.
pub proof fn lemma_zoom_steps(v: NetworkView, y: int, offset: Point)
    requires
        v.wf(),
    ensures
        MIN_SCALING <= v.wheel(y, offset).scaling <= MAX_SCALING,
        y > 0 && v.scaling < MAX_SCALING ==> v.scaling < v.wheel(y, offset).scaling,
        y < 0 && v.scaling > MIN_SCALING ==> v.wheel(y, offset).scaling < v.scaling,
        y >= 0 && v.scaling == MAX_SCALING ==> v.wheel(y, offset).scaling == v.scaling,
        y <= 0 && v.scaling == MIN_SCALING ==> v.wheel(y, offset).scaling == v.scaling,
{
    let s = v.scaling;
    let q = s * (30 + y) / 30;
    let r = s * (30 + y) % 30;
    lemma_fundamental_div_mod(s * (30 + y), 30);
    if y > 0 {
        assert(q > s) by (nonlinear_arith)
            requires
                s * (30 + y) == 30 * q + r,
                0 <= r < 30,
                100 <= s,
                y >= 1,
        ;
    } else if y < 0 {
        assert(q < s) by (nonlinear_arith)
            requires
                s * (30 + y) == 30 * q + r,
                0 <= r < 30,
                100 <= s,
                y <= -1,
        ;
    }
}

/// A left press over empty space unselects every node and changes nothing
/// else of the nodes or the gesture.
pub proof fn lemma_press_on_empty_unselects(v: NetworkView, bounds: Rect, p: Point, b: Button)
    requires
        v.wf(),
        bounds.wf(),
        bounds.contains_spec(p),
        b == Button::Left,
        hit_at(v.nodes, project_point(v.translation, v.scaling, bounds.size(), local_of(bounds, p))) is None,
    ensures
        ({
            let w = v.step(Event::Mouse(MouseEvent::ButtonPressed(b)), bounds, Some(p)).0;
            &&& w.nodes.len() == v.nodes.len()
            &&& forall|i: int| 0 <= i < v.nodes.len() ==> #[trigger] w.nodes[i] == v.nodes[i].with_selected(false)
            &&& w.interaction == v.interaction
            &&& w.translation == v.translation
            &&& w.scaling == v.scaling
        }),
{
}

/// A left press on a node selects it and starts dragging it from its
/// position; every other node keeps its state, selection included.
pub proof fn lemma_press_on_node_selects(v: NetworkView, bounds: Rect, p: Point, i: int, b: Button)
    requires
        v.wf(),
        bounds.wf(),
        bounds.contains_spec(p),
        b == Button::Left,
        is_first_hit(v.nodes, project_point(v.translation, v.scaling, bounds.size(), local_of(bounds, p)), i),
    ensures
        ({
            let w = v.step(Event::Mouse(MouseEvent::ButtonPressed(b)), bounds, Some(p)).0;
            &&& w.nodes == v.nodes.update(i, v.nodes[i].with_selected(true))
            &&& w.interaction == (Interaction::PanningNode {
                node_id: v.nodes[i].id,
                translation: Point { x: v.nodes[i].bounds.x, y: v.nodes[i].bounds.y },
                start: local_of(bounds, p),
            })
        }),
{
    lemma_hit_index(v.nodes, project_point(v.translation, v.scaling, bounds.size(), local_of(bounds, p)), i);
    lemma_index_of_own_id(v.nodes, i);
}

/// Pressing on a node, moving the cursor by some amount and releasing leaves
/// the node moved by that amount in world units (saturated at the coordinate
/// range), still selected, with the gesture over.
pub proof fn lemma_drag_moves_node(v: NetworkView, bounds: Rect, p0: Point, p1: Point, i: int)
    requires
        v.wf(),
        bounds.wf(),
        bounds.contains_spec(p0),
        bounds.contains_spec(p1),
        is_first_hit(v.nodes, project_point(v.translation, v.scaling, bounds.size(), local_of(bounds, p0)), i),
    ensures
        ({
            let v1 = v.step(Event::Mouse(MouseEvent::ButtonPressed(Button::Left)), bounds, Some(p0)).0;
            let v2 = v1.step(Event::Mouse(MouseEvent::CursorMoved), bounds, Some(p1)).0;
            let v3 = v2.step(Event::Mouse(MouseEvent::ButtonReleased(Button::Left)), bounds, Some(p1)).0;
            &&& v3.nodes.len() == v.nodes.len()
            &&& v3.nodes[i].bounds.x == clamp_coord(v.nodes[i].bounds.x + world_len(p1.x - p0.x, v.scaling))
            &&& v3.nodes[i].bounds.y == clamp_coord(v.nodes[i].bounds.y + world_len(p1.y - p0.y, v.scaling))
            &&& v3.nodes[i].bounds.width == v.nodes[i].bounds.width
            &&& v3.nodes[i].bounds.height == v.nodes[i].bounds.height
            &&& v3.nodes[i].is_selected
            &&& forall|j: int| 0 <= j < v.nodes.len() && j != i ==> #[trigger] v3.nodes[j] == v.nodes[j]
            &&& v3.interaction is Idle
        }),
{
    let press = Event::Mouse(MouseEvent::ButtonPressed(Button::Left));
    lemma_press_on_node_selects(v, bounds, p0, i, Button::Left);
    let v1 = v.step(press, bounds, Some(p0)).0;
    assert(ids_unique(v1.nodes)) by {
        assert forall|a: int, c: int|
            0 <= a < v1.nodes.len() && 0 <= c < v1.nodes.len() && a != c implies #[trigger] v1.nodes[a].id != #[trigger] v1.nodes[c].id by {
            assert(v.nodes[a].id != v.nodes[c].id);
        }
    }
    lemma_index_of_own_id(v1.nodes, i);
}

/// Pressing the middle button and moving the cursor by some amount moves the
/// view by that amount in world units (saturated at the coordinate range).
pub proof fn lemma_pan_moves_view(v: NetworkView, bounds: Rect, p0: Point, p1: Point)
    requires
        v.wf(),
        bounds.wf(),
        bounds.contains_spec(p0),
        bounds.contains_spec(p1),
    ensures
        ({
            let v1 = v.step(Event::Mouse(MouseEvent::ButtonPressed(Button::Middle)), bounds, Some(p0)).0;
            let v2 = v1.step(Event::Mouse(MouseEvent::CursorMoved), bounds, Some(p1)).0;
            &&& v2.translation.x == clamp_coord(v.translation.x + world_len(p1.x - p0.x, v.scaling))
            &&& v2.translation.y == clamp_coord(v.translation.y + world_len(p1.y - p0.y, v.scaling))
            &&& v2.nodes == v.nodes
            &&& v2.scaling == v.scaling
        }),
{
}

/// During a gesture, where a cursor move leaves the view or the dragged node
/// depends only on the last cursor position, not on the moves before it.
pub proof fn lemma_moves_depend_on_last_cursor(v: NetworkView, l1: Point, l2: Point)
    requires
        v.wf(),
    ensures
        v.cursor_moved(l1).cursor_moved(l2) == v.cursor_moved(l2),
{
    let w = v.cursor_moved(l1);
    match v.interaction {
        Interaction::PanningNode { node_id, translation, start } => {
            match index_of_id(v.nodes, node_id) {
                Some(i) => {
                    assert(ids_unique(w.nodes)) by {
                        assert forall|a: int, c: int|
                            0 <= a < w.nodes.len() && 0 <= c < w.nodes.len() && a != c implies #[trigger] w.nodes[a].id != #[trigger] w.nodes[c].id by {
                            assert(v.nodes[a].id != v.nodes[c].id);
                        }
                    }
                    assert(w.nodes[i].id == node_id);
                    lemma_index_of_own_id(w.nodes, i);
                    assert(w.cursor_moved(l2).nodes =~= v.cursor_moved(l2).nodes);
                },
                None => {},
            }
        },
        _ => {},
    }
}

/// A second draw for the same size, with nothing changed in between, builds
/// nothing and hands out the same layer as the first.
pub proof fn lemma_redraw_reuses_layer(v: NetworkView, size: Size)
    requires
        v.wf(),
    ensures
        v.after_draw(size).wf(),
        !v.after_draw(size).rebuilds(size),
        v.after_draw(size).drawn_layer(size) == v.drawn_layer(size),
{
}

/// An event that moves a node, changes a selection, pans or zooms leaves the
/// cache stale, so the next draw builds the layer anew.
pub proof fn lemma_change_forces_rebuild(v: NetworkView, event: Event, bounds: Rect, cursor: Option<Point>, size: Size)
    requires
        v.wf(),
        bounds.wf(),
    ensures
        ({
            let w = v.step(event, bounds, cursor).0;
            w.nodes != v.nodes || w.translation != v.translation || w.scaling != v.scaling ==> w.rebuilds(size)
        }),
{
}

/// The exact world coordinate (times `s*s*s2`) by which the point under a
/// cursor `c` from the centre moves when the scaling goes from `s` to `s2` and
/// the pan offset goes from `t` to `t2`, less the second-order drift
/// `1000*c*(s2 - s)^2` of the re-centring rule (also times `s*s*s2`).
pub open spec fn recenter_residue(c: int, t: int, t2: int, s: int, s2: int) -> int {
    s * s * (SCALE_ONE * c - t2 * s2) - s * s2 * (SCALE_ONE * c - t * s) - SCALE_ONE * c * (s2 - s) * (s2 - s)
}

proof fn lemma_recenter_axis(c: int, t: int, s: int, s2: int)
    requires
        MIN_SCALING <= s,
        MIN_SCALING <= s2,
        in_coord_range(t - c * (s2 - s) * SCALE_ONE / (s * s)),
    ensures
        -(s * s * s2) < recenter_residue(c, t, recenter_coord(t, c, s, s2), s, s2) <= 0,
{
    let a = c * (s2 - s) * 1000;
    let d = s * s;
    assert(d > 0) by (nonlinear_arith)
        requires
            100 <= s,
            d == s * s,
    ;
    lemma_fundamental_div_mod(a, d);
    let q = a / d;
    let r = a % d;
    let t2 = recenter_coord(t, c, s, s2);
    assert(t2 == t - q);
    let u = SCALE_ONE * c;
    assert(a == u * (s2 - s)) by (nonlinear_arith)
        requires
            a == c * (s2 - s) * 1000,
            u == 1000 * c,
    ;
    assert(d * (u - (t - q) * s2) == d * u - d * t * s2 + d * q * s2) by (nonlinear_arith);
    assert(d * u == u * s * s && d * t * s2 == t * s * s * s2 && d * q * s2 == q * s * s * s2) by (nonlinear_arith)
        requires
            d == s * s,
    ;
    assert(s * s * (u - (t - q) * s2) == d * (u - (t - q) * s2)) by (nonlinear_arith)
        requires
            d == s * s,
    ;
    assert(s * s2 * (u - t * s) == u * s * s2 - t * s * s * s2) by (nonlinear_arith);
    assert(u * (s2 - s) * (s2 - s) == u * s2 * s2 - 2 * (u * s * s2) + u * s * s) by (nonlinear_arith);
    assert(s2 * (s * s * q - u * (s2 - s)) == q * s * s * s2 - u * s2 * s2 + u * s * s2) by (nonlinear_arith);
    assert(s * s * q == d * q) by (nonlinear_arith)
        requires
            d == s * s,
    ;
    assert(s2 * (s * s * q - u * (s2 - s)) == -s2 * r) by (nonlinear_arith)
        requires
            s * s * q - u * (s2 - s) == -r,
    ;
    assert(recenter_residue(c, t, t2, s, s2) == -s2 * r);
    assert(-(s * s * s2) < -s2 * r <= 0) by (nonlinear_arith)
        requires
            0 <= r < d,
            d == s * s,
            100 <= s2,
    ;
}

/// A wheel step re-centres on the cursor: measured exactly, the world point
/// under a cursor at `offset` from the centre moves only by the second-order
/// drift `1000*c*(s2 - s)^2/(s*s*s2)` of the re-centring rule, less a rounding of
/// the translation of under one unit. It stays within one unit when the
/// cursor is at the centre. Stated where the translation does not saturate.
pub proof fn lemma_zoom_recenters(v: NetworkView, y: int, offset: Point)
    requires
        v.wf(),
        zoom_allowed(v.scaling, y),
        in_coord_range(v.translation.x - offset.x * (zoom_scaling(v.scaling, y) - v.scaling) * SCALE_ONE / (v.scaling * v.scaling)),
        in_coord_range(v.translation.y - offset.y * (zoom_scaling(v.scaling, y) - v.scaling) * SCALE_ONE / (v.scaling * v.scaling)),
    ensures
        ({
            let w = v.wheel(y, offset);
            let (s, s2) = (v.scaling, w.scaling);
            &&& -(s * s * s2) < recenter_residue(offset.x as int, v.translation.x as int, w.translation.x as int, s, s2) <= 0
            &&& -(s * s * s2) < recenter_residue(offset.y as int, v.translation.y as int, w.translation.y as int, s, s2) <= 0
        }),
{
    lemma_zoom_steps(v, y, offset);
    let s2 = zoom_scaling(v.scaling, y);
    lemma_recenter_axis(offset.x as int, v.translation.x as int, v.scaling, s2);
    lemma_recenter_axis(offset.y as int, v.translation.y as int, v.scaling, s2);
}

} // verus!
