use sword::cache::NodeShape;
use sword::geometry::{Point, Rect, Size};
use sword::network::{Button, Event, Interaction, MouseEvent, Network, Status};
use sword::node::{Color, Node};

fn viewport() -> Rect {
    Rect::new(0, 0, 800, 600)
}

fn press(b: Button) -> Event {
    Event::Mouse(MouseEvent::ButtonPressed(b))
}

fn release(b: Button) -> Event {
    Event::Mouse(MouseEvent::ButtonReleased(b))
}

fn moved() -> Event {
    Event::Mouse(MouseEvent::CursorMoved)
}

fn wheel(y: i32) -> Event {
    Event::Mouse(MouseEvent::WheelScrolled { y })
}

fn two_nodes() -> Network {
    let a = Node::new(1, Rect::new(0, 0, 100, 100), Color::black());
    let b = Node::new(2, Rect::new(200, 0, 50, 50), Color { r: 0, g: 0, b: 255 });
    Network::with_nodes(vec![a, b]).unwrap()
}

#[test]
fn click_drag_release_scenario() {
    let mut net = Network::new();
    let bounds = viewport();
    let size = Size::new(800, 600);
    assert_eq!(net.project(Point::new(450, 350), size), Point::new(50, 50));

    let r = net.update(press(Button::Left), bounds, Some(Point::new(450, 350)));
    assert_eq!(r, (Status::Captured, None));
    assert!(net.nodes()[0].is_selected);
    assert!(matches!(net.interaction(), Interaction::PanningNode { node_id: 0, .. }));

    let r = net.update(moved(), bounds, Some(Point::new(470, 350)));
    assert_eq!(r.0, Status::Captured);
    assert_eq!(net.nodes()[0].bounds, Rect::new(20, 0, 100, 100));

    net.update(release(Button::Left), bounds, Some(Point::new(470, 350)));
    assert_eq!(net.interaction(), Interaction::Idle);
    assert!(net.nodes()[0].is_selected);
    assert_eq!(net.nodes()[0].bounds, Rect::new(20, 0, 100, 100));
}

#[test]
fn visible_region_at_scaling_one() {
    let net = Network::new();
    let r = net.visible_region(Size::new(800, 600));
    assert_eq!((r.x, r.y, r.width, r.height), (-400, -300, 800, 600));
}

#[test]
fn project_unproject_round_trip() {
    let mut net = Network::new();
    let size = Size::new(800, 600);
    for y in [0, 7, 7, -20, -20, -20] {
        if y != 0 {
            net.update(wheel(y), viewport(), Some(Point::new(123, 456)));
        }
        let s = net.scaling();
        for w in [Point::new(0, 0), Point::new(-77, 913), Point::new(5000, -4321)] {
            let back = net.project(net.unproject(w, size), size);
            for (orig, got) in [(w.x, back.x), (w.y, back.y)] {
                assert!(orig - got >= 0);
                assert!((orig - got - 1) * s < 1000);
            }
        }
    }
}

#[test]
fn unproject_exact_value() {
    let net = Network::new();
    assert_eq!(net.unproject(Point::new(50, 50), Size::new(800, 600)), Point::new(450, 350));
}

#[test]
fn zoom_in_rises_to_the_bound() {
    let mut net = Network::new();
    net.update(wheel(1), viewport(), Some(Point::new(400, 300)));
    assert_eq!(net.scaling(), 1033);
    let mut last = net.scaling();
    for _ in 0..40 {
        net.update(wheel(1), viewport(), Some(Point::new(400, 300)));
        let s = net.scaling();
        assert!(s <= 2000);
        assert!(s > last || (s == 2000 && last == 2000));
        last = s;
    }
    assert_eq!(net.scaling(), 2000);
}

#[test]
fn zoom_out_falls_to_the_bound() {
    let mut net = Network::new();
    let mut last = net.scaling();
    for _ in 0..80 {
        net.update(wheel(-1), viewport(), Some(Point::new(400, 300)));
        let s = net.scaling();
        assert!(s >= 100);
        assert!(s < last || (s == 100 && last == 100));
        last = s;
    }
    assert_eq!(net.scaling(), 100);
    net.update(wheel(-40), viewport(), Some(Point::new(400, 300)));
    assert_eq!(net.scaling(), 100);
}

#[test]
fn large_step_out_clamps_to_minimum() {
    let mut net = Network::new();
    net.update(wheel(-40), viewport(), Some(Point::new(400, 300)));
    assert_eq!(net.scaling(), 100);
}

#[test]
fn zoom_recenters_translation() {
    let mut net = Network::new();
    let r = net.update(wheel(30), viewport(), Some(Point::new(500, 300)));
    assert_eq!(r.0, Status::Captured);
    assert_eq!(net.scaling(), 2000);
    assert_eq!(net.translation(), Point::new(-100, 0));
}

#[test]
fn zoom_at_centre_keeps_the_point_under_the_cursor() {
    let mut net = Network::new();
    let size = Size::new(800, 600);
    let before = net.project(Point::new(400, 300), size);
    net.update(wheel(3), viewport(), Some(Point::new(400, 300)));
    assert_eq!(net.translation(), Point::new(0, 0));
    assert_eq!(net.project(Point::new(400, 300), size), before);
}

#[test]
fn small_zoom_step_keeps_the_point_under_the_cursor_nearly() {
    let mut net = Network::new();
    let size = Size::new(800, 600);
    let cursor = Point::new(600, 200);
    let before = net.project(cursor, size);
    net.update(wheel(1), viewport(), Some(cursor));
    let after = net.project(cursor, size);
    assert!((after.x - before.x).abs() <= 1);
    assert!((after.y - before.y).abs() <= 1);
}

#[test]
fn press_on_empty_space_unselects_all() {
    let mut net = two_nodes();
    net.update(press(Button::Left), viewport(), Some(Point::new(450, 350)));
    net.update(release(Button::Left), viewport(), Some(Point::new(450, 350)));
    net.update(press(Button::Left), viewport(), Some(Point::new(625, 325)));
    assert!(net.nodes()[0].is_selected && net.nodes()[1].is_selected);
    net.update(release(Button::Left), viewport(), Some(Point::new(625, 325)));
    let r = net.update(press(Button::Left), viewport(), Some(Point::new(10, 10)));
    assert_eq!(r.0, Status::Captured);
    assert!(!net.nodes()[0].is_selected && !net.nodes()[1].is_selected);
    assert_eq!(net.interaction(), Interaction::Idle);
}

#[test]
fn press_on_node_leaves_other_selection() {
    let mut net = two_nodes();
    net.update(press(Button::Left), viewport(), Some(Point::new(450, 350)));
    assert!(net.nodes()[0].is_selected && !net.nodes()[1].is_selected);
    net.update(release(Button::Left), viewport(), Some(Point::new(450, 350)));
    net.update(press(Button::Left), viewport(), Some(Point::new(610, 310)));
    assert!(net.nodes()[0].is_selected && net.nodes()[1].is_selected);
}

#[test]
fn hit_test_takes_first_in_store_order_and_edges() {
    let a = Node::new(7, Rect::new(0, 0, 100, 100), Color::black());
    let b = Node::new(3, Rect::new(50, 50, 100, 100), Color::black());
    let net = Network::with_nodes(vec![a, b]).unwrap();
    assert_eq!(net.get_node_at_screen(Point::new(60, 60)), Some(7));
    assert_eq!(net.get_node_at_screen(Point::new(0, 0)), Some(7));
    assert_eq!(net.get_node_at_screen(Point::new(99, 99)), Some(7));
    assert_eq!(net.get_node_at_screen(Point::new(100, 100)), Some(3));
    assert_eq!(net.get_node_at_screen(Point::new(149, 149)), Some(3));
    assert_eq!(net.get_node_at_screen(Point::new(150, 150)), None);
    assert_eq!(net.get_node_at_screen(Point::new(149, 150)), None);
    let z = Node::new(1, Rect::new(0, 0, 0, 0), Color::black());
    let net = Network::with_nodes(vec![z]).unwrap();
    assert_eq!(net.get_node_at_screen(Point::new(0, 0)), None);
    assert_eq!(net.get_node_at_screen(Point::new(1, 1)), None);
}

#[test]
fn drag_at_double_scaling_moves_half_as_far() {
    let mut net = Network::new();
    net.update(wheel(30), viewport(), Some(Point::new(400, 300)));
    assert_eq!(net.scaling(), 2000);
    let start = net.unproject(Point::new(10, 10), Size::new(800, 600));
    net.update(press(Button::Left), viewport(), Some(start));
    net.update(moved(), viewport(), Some(Point::new(start.x + 40, start.y + 20)));
    net.update(release(Button::Left), viewport(), Some(Point::new(start.x + 40, start.y + 20)));
    assert_eq!(net.nodes()[0].bounds, Rect::new(20, 10, 100, 100));
}

#[test]
fn pan_moves_translation() {
    let mut net = Network::new();
    net.update(press(Button::Middle), viewport(), Some(Point::new(100, 100)));
    assert!(matches!(net.interaction(), Interaction::PanningScreen { .. }));
    net.update(moved(), viewport(), Some(Point::new(130, 90)));
    assert_eq!(net.translation(), Point::new(30, -10));
    net.update(wheel(30), viewport(), Some(Point::new(400, 300)));
    net.update(release(Button::Middle), viewport(), Some(Point::new(0, 0)));
    net.update(press(Button::Middle), viewport(), Some(Point::new(100, 100)));
    net.update(moved(), viewport(), Some(Point::new(140, 120)));
    assert_eq!(net.translation(), Point::new(50, 0));
}

#[test]
fn draw_reuses_cache_until_change() {
    let mut net = Network::new();
    let d1 = net.draw(viewport());
    assert!(d1.rebuilt);
    let d2 = net.draw(viewport());
    assert!(!d2.rebuilt);
    assert_eq!(d1.nodes, d2.nodes);
    net.update(press(Button::Left), viewport(), Some(Point::new(450, 350)));
    let d3 = net.draw(viewport());
    assert!(d3.rebuilt);
    assert_eq!(d3.nodes[0].stroke, Color::red());
    let d4 = net.draw(Rect::new(0, 0, 640, 480));
    assert!(d4.rebuilt);
    net.update(moved(), viewport(), Some(Point::new(460, 350)));
    assert!(net.draw(viewport()).rebuilt);
}

#[test]
fn draw_output_values() {
    let mut net = Network::new();
    let d = net.draw(viewport());
    assert_eq!(d.background, Rect::new(0, 0, 800, 600));
    assert_eq!(d.background_color, Color { r: 0x04, g: 0x44, b: 0x48 });
    assert_eq!(d.center, Point::new(400, 300));
    assert_eq!(d.scaling, 1000);
    assert_eq!(
        d.nodes,
        vec![NodeShape {
            bounds: Rect::new(0, 0, 100, 100),
            fill: Color::black(),
            stroke: Color::black(),
            stroke_width: 2500,
        }]
    );
}

#[test]
fn release_always_ends_gesture() {
    let mut net = Network::new();
    net.update(press(Button::Middle), viewport(), Some(Point::new(100, 100)));
    let r = net.update(release(Button::Right), viewport(), None);
    assert_eq!(r.0, Status::Ignored);
    assert_eq!(net.interaction(), Interaction::Idle);
    net.update(press(Button::Left), viewport(), Some(Point::new(450, 350)));
    let r = net.update(release(Button::Left), viewport(), Some(Point::new(2000, 2000)));
    assert_eq!(r.0, Status::Ignored);
    assert_eq!(net.interaction(), Interaction::Idle);
    let r = net.update(release(Button::Left), viewport(), Some(Point::new(1, 1)));
    assert_eq!(r.0, Status::Captured);
}

#[test]
fn event_consumption() {
    let mut net = Network::new();
    assert_eq!(net.update(moved(), viewport(), Some(Point::new(5, 5))).0, Status::Ignored);
    assert_eq!(net.update(Event::Other, viewport(), Some(Point::new(5, 5))).0, Status::Ignored);
    assert_eq!(net.update(press(Button::Right), viewport(), Some(Point::new(5, 5))).0, Status::Captured);
    assert_eq!(net.interaction(), Interaction::Idle);
    assert_eq!(net.update(press(Button::Middle), viewport(), None).0, Status::Ignored);
    assert_eq!(net.interaction(), Interaction::Idle);
    net.update(press(Button::Middle), viewport(), Some(Point::new(5, 5)));
    assert_eq!(net.update(moved(), viewport(), Some(Point::new(6, 5))).0, Status::Captured);
}

#[test]
fn bounds_offset_is_removed_from_cursor() {
    let mut net = Network::new();
    let bounds = Rect::new(100, 50, 800, 600);
    net.update(press(Button::Left), bounds, Some(Point::new(550, 400)));
    assert!(net.nodes()[0].is_selected);
}

#[test]
fn with_nodes_rejects_bad_stores() {
    let a = Node::new(1, Rect::new(0, 0, 10, 10), Color::black());
    let b = Node::new(1, Rect::new(20, 0, 10, 10), Color::black());
    assert!(Network::with_nodes(vec![a, b]).is_none());
    let far = Node::new(2, Rect::new(1i64 << 41, 0, 10, 10), Color::black());
    assert!(Network::with_nodes(vec![a, far]).is_none());
    assert!(Network::with_nodes(vec![]).is_some());
}

#[test]
fn pan_saturates_at_coordinate_limit() {
    let far = Node::new(2, Rect::new(1i64 << 40, 0, 10, 10), Color::black());
    let mut net = Network::with_nodes(vec![far]).unwrap();
    let bounds = Rect::new(0, 0, 1i64 << 40, 1000);
    let start = net.unproject(Point::new((1i64 << 40) + 1, 1), Size::new(1i64 << 40, 1000));
    net.update(press(Button::Left), bounds, Some(start));
    net.update(moved(), bounds, Some(Point::new(start.x + 1000, start.y)));
    assert_eq!(net.nodes()[0].bounds.x, 1i64 << 40);
}

#[test]
fn zero_size_node_is_not_hit_at_its_corner() {
    let z = Node::new(4, Rect::new(10, 20, 0, 0), Color::black());
    let n = Node::new(5, Rect::new(10, 20, -5, 8), Color::black());
    let net = Network::with_nodes(vec![z, n]).unwrap();
    assert_eq!(net.get_node_at_screen(Point::new(10, 20)), None);
    assert_eq!(net.get_node_at_screen(Point::new(8, 22)), None);
}

#[test]
fn unproject_project_round_trip() {
    let mut net = Network::new();
    let size = Size::new(800, 600);
    for y in [0, 7, 7, -20, -20, -20] {
        if y != 0 {
            net.update(wheel(y), viewport(), Some(Point::new(321, 54)));
        }
        let s = net.scaling();
        for p in [Point::new(0, 0), Point::new(399, 17), Point::new(800, 600), Point::new(-250, 1234)] {
            let back = net.unproject(net.project(p, size), size);
            for (orig, got) in [(p.x, back.x), (p.y, back.y)] {
                assert!(orig - got >= 0);
                assert!((orig - got - 1) * 1000 < s);
            }
        }
    }
}

#[test]
fn drag_position_depends_on_last_cursor_only() {
    let mut net = Network::new();
    net.update(press(Button::Left), viewport(), Some(Point::new(450, 350)));
    net.update(moved(), viewport(), Some(Point::new(700, 10)));
    net.update(moved(), viewport(), Some(Point::new(430, 370)));
    net.update(moved(), viewport(), Some(Point::new(455, 345)));
    net.update(release(Button::Left), viewport(), Some(Point::new(455, 345)));
    assert_eq!(net.nodes()[0].bounds, Rect::new(5, -5, 100, 100));
}
