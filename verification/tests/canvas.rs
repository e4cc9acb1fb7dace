use static_canvas::canvas::{StaticCanvas, CLEAR_EXTENT_BITS, CLEAR_ORIGIN_BITS};
use static_canvas::collection::Collectable;
use static_canvas::geometry::{Point, Region, Scalar};
use static_canvas::object::{Createable, ObjectTR};
use static_canvas::rect::Rect;
use static_canvas::shape::Shape;
use static_canvas::surface::DrawCommand;
use static_canvas::{start, FIRST_STOP_BITS, LAST_STOP_BITS, SECOND_STOP_BITS};

fn number(value: f64) -> Scalar {
    Scalar::from_bits(value.to_bits())
}

fn point(x: f64, y: f64) -> Point {
    Point { x: number(x), y: number(y) }
}

fn region(x: f64, y: f64, width: f64, height: f64) -> Region {
    Region { origin: point(x, y), width: number(width), height: number(height) }
}

fn clear() -> DrawCommand {
    DrawCommand::ClearRect(region(0.0, 0.0, 1000.0, 1000.0))
}

fn alpha(value: f64) -> DrawCommand {
    DrawCommand::SetGlobalAlpha(number(value))
}

fn fill(x: f64, y: f64, width: f64, height: f64) -> DrawCommand {
    DrawCommand::FillRect(region(x, y, width, height))
}

fn clears(frame: &[DrawCommand]) -> usize {
    frame.iter().filter(|command| matches!(command, DrawCommand::ClearRect(_))).count()
}

fn fills(frame: &[DrawCommand]) -> usize {
    frame.iter().filter(|command| matches!(command, DrawCommand::FillRect(_))).count()
}

#[test]
fn the_canvas_constants_are_the_numbers_they_stand_for() {
    assert_eq!(f64::from_bits(CLEAR_ORIGIN_BITS), 0.0);
    assert_eq!(f64::from_bits(CLEAR_EXTENT_BITS), 1000.0);
    assert_eq!(f64::from_bits(FIRST_STOP_BITS), 150.0);
    assert_eq!(f64::from_bits(SECOND_STOP_BITS), 100.0);
    assert_eq!(f64::from_bits(LAST_STOP_BITS), 50.0);
}

#[test]
fn new_canvas_is_empty_and_clears_1000_by_1000() {
    let canvas = StaticCanvas::new(17u8);
    assert_eq!(*canvas.surface(), 17);
    assert!(canvas.get_collection().objects.is_empty());
    assert_eq!(canvas.clear_region(), region(0.0, 0.0, 1000.0, 1000.0));
}

#[test]
fn an_empty_canvas_only_clears() {
    let canvas = StaticCanvas::new(());
    assert_eq!(canvas.render_all(), vec![clear()]);
}

#[test]
fn render_all_clears_and_then_paints_the_shape() {
    let mut canvas = StaticCanvas::new(());
    canvas.add(Shape::Rect(Rect::new()));
    assert_eq!(
        canvas.render_all(),
        vec![clear(), alpha(0.3), fill(100.0, 100.0, 50.0, 50.0)]
    );
}

#[test]
fn render_all_paints_in_insertion_order() {
    let mut canvas = StaticCanvas::new(());
    let places = [(10.0, 1.0), (30.0, 3.0), (20.0, 2.0), (5.0, 4.0)];
    for (id, (x, y)) in places.iter().enumerate() {
        let mut rect = Rect::with_id(id as u32);
        rect.set_position(point(*x, *y));
        canvas.add(Shape::Rect(rect));
    }
    assert_eq!(
        canvas.render_all(),
        vec![
            clear(),
            alpha(0.3),
            fill(10.0, 1.0, 50.0, 50.0),
            alpha(0.3),
            fill(30.0, 3.0, 50.0, 50.0),
            alpha(0.3),
            fill(20.0, 2.0, 50.0, 50.0),
            alpha(0.3),
            fill(5.0, 4.0, 50.0, 50.0),
        ]
    );
}

#[test]
fn each_shape_sets_the_alpha_before_it_fills() {
    let mut canvas = StaticCanvas::new(());
    let mut faint = Rect::with_id(1);
    faint.get_object_mut().opacity = number(0.1);
    let mut solid = Rect::with_id(2);
    solid.get_object_mut().opacity = number(1.0);
    solid.set_position(point(0.0, 0.0));
    canvas.add(Shape::Rect(faint));
    canvas.add(Shape::Rect(solid));
    let frame = canvas.render_all();
    assert_eq!(
        frame,
        vec![
            clear(),
            alpha(0.1),
            fill(100.0, 100.0, 50.0, 50.0),
            alpha(1.0),
            fill(0.0, 0.0, 50.0, 50.0),
        ]
    );
    assert_eq!(frame.last(), Some(&fill(0.0, 0.0, 50.0, 50.0)));
    assert!(!frame[1..].contains(&clear()));
}

#[test]
fn render_all_repaints_everything_every_time() {
    let mut canvas = StaticCanvas::new(());
    canvas.add(Shape::Rect(Rect::with_id(1)));
    canvas.add(Shape::Rect(Rect::with_id(2)));
    let first = canvas.render_all();
    let second = canvas.render_all();
    assert_eq!(first, second);
    assert_eq!(first.len(), 5);
    assert_eq!(clears(&first), 1);
    assert_eq!(fills(&first), 2);
}

#[test]
fn render_all_leaves_the_canvas_as_it_was() {
    let mut canvas = StaticCanvas::new(3u32);
    let mut rect = Rect::with_id(6);
    rect.set_position(point(11.0, 22.0));
    canvas.add(Shape::Rect(rect));
    for _ in 0..3 {
        canvas.render_all();
    }
    assert_eq!(*canvas.surface(), 3);
    assert_eq!(canvas.clear_region(), region(0.0, 0.0, 1000.0, 1000.0));
    assert_eq!(canvas.get_collection().objects.len(), 1);
    match &canvas.get_collection().objects[0] {
        Shape::Rect(rect) => {
            assert_eq!(rect.id(), 6);
            assert_eq!(rect.get_object().point, point(11.0, 22.0));
            assert_eq!(rect.get_object().opacity, number(0.3));
            assert_eq!(rect.width(), number(50.0));
            assert_eq!(rect.height(), number(50.0));
        }
    }
}

#[test]
fn a_removed_shape_is_not_painted() {
    let mut canvas = StaticCanvas::new(());
    let mut left = Rect::with_id(1);
    left.set_position(point(1.0, 1.0));
    let mut right = Rect::with_id(2);
    right.set_position(point(2.0, 2.0));
    canvas.add(Shape::Rect(left));
    canvas.add(Shape::Rect(right));
    canvas.remove(Shape::Rect(Rect::with_id(1)));
    assert_eq!(canvas.render_all(), vec![clear(), alpha(0.3), fill(2.0, 2.0, 50.0, 50.0)]);
}

#[test]
fn the_cleared_region_can_be_set() {
    let mut canvas = StaticCanvas::new('s');
    canvas.add(Shape::Rect(Rect::new()));
    canvas.set_clear_region(region(5.0, 6.0, 300.0, 150.0));
    assert_eq!(canvas.clear_region(), region(5.0, 6.0, 300.0, 150.0));
    assert_eq!(*canvas.surface(), 's');
    assert_eq!(canvas.get_collection().objects.len(), 1);
    assert_eq!(
        canvas.render_all(),
        vec![
            DrawCommand::ClearRect(region(5.0, 6.0, 300.0, 150.0)),
            alpha(0.3),
            fill(100.0, 100.0, 50.0, 50.0),
        ]
    );
}

#[test]
fn move_and_repaint_three_times() {
    let mut canvas = StaticCanvas::new(());
    assert!(canvas.get_collection().objects.is_empty());
    canvas.add(Shape::Rect(Rect::new()));
    for place in [150.0, 100.0, 50.0] {
        canvas.get_collection_mut().objects[0].set_position(point(place, place));
        let frame = canvas.render_all();
        assert_eq!(frame, vec![clear(), alpha(0.3), fill(place, place, 50.0, 50.0)]);
        assert_eq!(clears(&frame), 1);
        assert_eq!(fills(&frame), 1);
    }
}

#[test]
fn start_shows_the_rectangle_at_150_100_and_50() {
    let (canvas, frames) = start("surface");
    assert_eq!(
        frames,
        vec![
            vec![clear(), alpha(0.3), fill(150.0, 150.0, 50.0, 50.0)],
            vec![clear(), alpha(0.3), fill(100.0, 100.0, 50.0, 50.0)],
            vec![clear(), alpha(0.3), fill(50.0, 50.0, 50.0, 50.0)],
        ]
    );
    assert_eq!(*canvas.surface(), "surface");
    assert_eq!(canvas.clear_region(), region(0.0, 0.0, 1000.0, 1000.0));
    assert_eq!(canvas.get_collection().objects.len(), 1);
    match &canvas.get_collection().objects[0] {
        Shape::Rect(rect) => {
            assert_eq!(rect.id(), 123);
            assert_eq!(rect.get_object().point, point(50.0, 50.0));
            assert_eq!(rect.get_object().opacity, number(0.3));
            assert_eq!(rect.width(), number(50.0));
            assert_eq!(rect.height(), number(50.0));
        }
    }
    assert_eq!(canvas.render_all(), frames[2]);
}
