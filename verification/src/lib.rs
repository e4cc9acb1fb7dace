//! A minimal 2D scene: drawable shapes, the ordered collection that owns them,
//! and a canvas that repaints the whole collection as one frame of draw
//! commands for the host to perform on its surface.

use vstd::prelude::*;

pub mod canvas;
pub mod collection;
pub mod geometry;
pub mod object;
pub mod rect;
pub mod shape;
pub mod surface;

use crate::canvas::{default_clear_region, painted_all, StaticCanvas};
use crate::collection::Collectable;
use crate::geometry::{Point, Region, Scalar};
use crate::object::{
    lemma_moved, lemma_moved_overwrites, moved, Createable, ObjectTR, DEFAULT_OPACITY_BITS,
};
use crate::rect::{Rect, DEFAULT_EXTENT_BITS};
use crate::shape::Shape;
use crate::surface::DrawCommand;

verus! {

/// Bit pattern of 150, both coordinates of the first position that `start`
/// shows.
pub const FIRST_STOP_BITS: u64 = 0x4062_C000_0000_0000;

/// Bit pattern of 100, both coordinates of the second position that `start`
/// shows.
pub const SECOND_STOP_BITS: u64 = 0x4059_0000_0000_0000;

/// Bit pattern of 50, both coordinates of the last position that `start`
/// shows.
pub const LAST_STOP_BITS: u64 = 0x4049_0000_0000_0000;

/// The point on the diagonal whose two coordinates have the bit pattern
/// `bits`.
pub open spec fn diagonal(bits: u64) -> Point {
    Point { x: Scalar { bits }, y: Scalar { bits } }
}

/// The frame of a new canvas that holds one new rectangle, moved to `point`:
/// one clear, one alpha, one fill.
pub open spec fn frame_at(point: Point) -> Seq<DrawCommand> {
    seq![
        DrawCommand::ClearRect(default_clear_region()),
        DrawCommand::SetGlobalAlpha(Scalar { bits: DEFAULT_OPACITY_BITS }),
        DrawCommand::FillRect(
            Region {
                origin: point,
                width: Scalar { bits: DEFAULT_EXTENT_BITS },
                height: Scalar { bits: DEFAULT_EXTENT_BITS },
            },
        ),
    ]
}

/// A new rectangle, moved to `point`.
pub open spec fn rect_at(point: Point) -> Shape {
    moved(Shape::Rect(Rect::created()), point)
}

/// A canvas that clears the default region and holds one new rectangle,
/// moved to `point`, repaints as `frame_at(point)`.
pub proof fn lemma_frame_of_one<S>(canvas: StaticCanvas<S>, point: Point)
    requires
        canvas.spec_clear_region() == default_clear_region(),
        canvas.collection()@ == seq![rect_at(point)],
    ensures
        canvas.frame() == frame_at(point),
{
    let shapes = canvas.collection()@;
    let rect = Rect::created();
    Rect::lemma_created();
    lemma_moved(rect, point);
    rect.lemma_with_object_extents(rect.object().at(point));
    assert(shapes.drop_last() == Seq::<Shape>::empty());
    assert(painted_all(shapes.drop_last()) == Seq::<DrawCommand>::empty());
    assert(shapes.last() == rect_at(point));
    assert(painted_all(shapes) == rect_at(point).painted());
}

/// Moves the first shape of the canvas to `point` and repaints.
fn show_at<S>(canvas: &mut StaticCanvas<S>, point: Point) -> (frame: Vec<DrawCommand>)
    requires
        old(canvas).collection()@.len() > 0,
    ensures
        final(canvas).collection()@ == old(canvas).collection()@.update(
            0,
            moved(old(canvas).collection()@[0], point),
        ),
        *final(canvas) == old(canvas).with_collection(final(canvas).collection()),
        frame@ == final(canvas).frame(),
{
    let collection = canvas.get_collection_mut();
    collection.objects[0].set_position(point);
    proof {
        old(canvas).lemma_with_collection(*collection, *collection);
    }
    canvas.render_all()
}

/// Sets up a canvas on `surface` with one new rectangle, and shows the
/// rectangle at three positions in turn: it is moved and the canvas is
/// repainted, three times. The result is the canvas as it then stands and
/// the three frames, in the order in which the host has to perform them.
pub fn start<S>(surface: S) -> (shown: (StaticCanvas<S>, Vec<Vec<DrawCommand>>))
    ensures
        shown.0.spec_surface() == surface,
        shown.0.spec_clear_region() == default_clear_region(),
        shown.0.collection()@ == seq![rect_at(diagonal(LAST_STOP_BITS))],
        shown.1@.len() == 3,
        shown.1@[0]@ == frame_at(diagonal(FIRST_STOP_BITS)),
        shown.1@[1]@ == frame_at(diagonal(SECOND_STOP_BITS)),
        shown.1@[2]@ == frame_at(diagonal(LAST_STOP_BITS)),
{
    let mut canvas = StaticCanvas::new(surface);
    let ghost empty = canvas;
    let new_rect = Rect::new();
    canvas.add(Shape::Rect(new_rect));
    let ghost filled = canvas;
    proof {
        empty.lemma_with_collection_rest(filled.collection());
    }
    let mut frames: Vec<Vec<DrawCommand>> = Vec::new();

    let first = Point { x: Scalar { bits: FIRST_STOP_BITS }, y: Scalar { bits: FIRST_STOP_BITS } };
    let frame = show_at(&mut canvas, first);
    let ghost at_first = canvas;
    proof {
        filled.lemma_with_collection_rest(at_first.collection());
        assert(at_first.collection()@ == seq![rect_at(first)]);
        lemma_frame_of_one(at_first, first);
    }
    frames.push(frame);

    let second = Point { x: Scalar { bits: SECOND_STOP_BITS }, y: Scalar { bits: SECOND_STOP_BITS } };
    let frame = show_at(&mut canvas, second);
    let ghost at_second = canvas;
    proof {
        at_first.lemma_with_collection_rest(at_second.collection());
        lemma_moved_overwrites(Shape::Rect(Rect::created()), first, second);
        assert(at_second.collection()@ == seq![rect_at(second)]);
        lemma_frame_of_one(at_second, second);
    }
    frames.push(frame);

    let last = Point { x: Scalar { bits: LAST_STOP_BITS }, y: Scalar { bits: LAST_STOP_BITS } };
    let frame = show_at(&mut canvas, last);
    proof {
        at_second.lemma_with_collection_rest(canvas.collection());
        lemma_moved_overwrites(Shape::Rect(Rect::created()), second, last);
        assert(canvas.collection()@ == seq![rect_at(last)]);
        lemma_frame_of_one(canvas, last);
    }
    frames.push(frame);
    (canvas, frames)
}

} // verus!
