//! What every shape has: its base state, and the capabilities of a drawable.

use vstd::prelude::*;
use crate::geometry::{Point, Scalar};
use crate::surface::DrawCommand;

verus! {

/// Bit pattern of 0.3, the opacity of a new object.
pub const DEFAULT_OPACITY_BITS: u64 = 0x3FD3_3333_3333_3333;

/// Bit pattern of 100, both coordinates of a new object.
pub const DEFAULT_COORDINATE_BITS: u64 = 0x4059_0000_0000_0000;

/// Construction without parameters: `new` always yields the one value
/// `created()`.
pub trait Createable<T> {
    /// The value that `new` yields.
    spec fn created() -> T;

    fn new() -> (made: T)
        ensures
            made == Self::created(),
    ;
}

/// The state that every shape carries: where it is and how opaque it is.
/// The opacity is meant to lie between 0 and 1; nothing enforces that.
#[derive(Clone, Copy, Debug, PartialEq, Eq, Structural)]
pub struct Object {
    pub point: Point,
    pub opacity: Scalar,
}

impl Object {
    /// This state at another position, the opacity kept.
    pub open spec fn at(self, point: Point) -> Object {
        Object { point, opacity: self.opacity }
    }
}

impl Createable<Object> for Object {
    open spec fn created() -> Object {
        Object {
            point: Point {
                x: Scalar { bits: DEFAULT_COORDINATE_BITS },
                y: Scalar { bits: DEFAULT_COORDINATE_BITS },
            },
            opacity: Scalar { bits: DEFAULT_OPACITY_BITS },
        }
    }

    fn new() -> (made: Object) {
        Object {
            opacity: Scalar { bits: DEFAULT_OPACITY_BITS },
            point: Point {
                x: Scalar { bits: DEFAULT_COORDINATE_BITS },
                y: Scalar { bits: DEFAULT_COORDINATE_BITS },
            },
        }
    }
}

/// A drawable: it has an identity, it can be moved, and it can paint itself.
///
/// A drawable is its base state together with whatever else its kind of shape
/// keeps. `with_object` names the same drawable around another base state;
/// what a method changes is stated through it, so that the identity and the
/// shape's own geometry are known to stay.
pub trait ObjectTR: Sized {
    /// The identity, given at construction and never changed.
    spec fn identity(&self) -> u32;

    /// The base state.
    spec fn object(&self) -> Object;

    /// This drawable with `object` as its base state and nothing else changed.
    spec fn with_object(&self, object: Object) -> Self;

    /// The commands by which this drawable paints itself, in order.
    spec fn painted(&self) -> Seq<DrawCommand>;

    /// Replacing the base state changes the base state and only that; the
    /// later of two replacements wins.
    proof fn lemma_with_object(&self, first: Object, second: Object)
        ensures
            self.with_object(first).object() == first,
            self.with_object(first).identity() == self.identity(),
            self.with_object(self.object()) == *self,
            self.with_object(first).with_object(second) == self.with_object(second),
    ;

    fn id(&self) -> (id: u32)
        ensures
            id == self.identity(),
    ;

    fn get_object_mut(&mut self) -> (object: &mut Object)
        ensures
            *object == old(self).object(),
            *final(self) == old(self).with_object(*final(object)),
    ;

    /// Moves the drawable: its position becomes `point`, whatever `point` is,
    /// and nothing else about it changes. What stands after the move is
    /// `moved(*old(self), point)`, written out.
    fn set_position(&mut self, point: Point)
        ensures
            *final(self) == old(self).with_object(old(self).object().at(point)),
            final(self).object() == old(self).object().at(point),
            final(self).identity() == old(self).identity(),
    {
        self.get_object_mut().point = point;
        proof {
            let object = old(self).object().at(point);
            old(self).lemma_with_object(object, object);
        }
    }

    /// Paints the drawable at the end of `surface`. The drawable itself is
    /// only read.
    fn render(&self, surface: &mut Vec<DrawCommand>)
        ensures
            final(surface)@ == old(surface)@ + self.painted(),
    ;
}

/// `shape` at the position `point`: its base state has `point` in place of
/// its old position, and nothing else about it differs.
pub open spec fn moved<T: ObjectTR>(shape: T, point: Point) -> T {
    shape.with_object(shape.object().at(point))
}

/// What a move changes and what it keeps: the position is the new one, the
/// opacity and the identity are the old ones.
pub proof fn lemma_moved<T: ObjectTR>(shape: T, point: Point)
    ensures
        moved(shape, point).object().point == point,
        moved(shape, point).object().opacity == shape.object().opacity,
        moved(shape, point).identity() == shape.identity(),
{
    shape.lemma_with_object(shape.object().at(point), shape.object().at(point));
}

/// Moving twice to one point is moving once: the second move finds the
/// drawable as the first left it, and leaves it so.
pub proof fn lemma_set_position_idempotent<T: ObjectTR>(shape: T, point: Point)
    ensures
        moved(moved(shape, point), point) == moved(shape, point),
{
    lemma_moved_overwrites(shape, point, point);
}

/// Of two moves in a row only the later one shows.
pub proof fn lemma_moved_overwrites<T: ObjectTR>(shape: T, first: Point, second: Point)
    ensures
        moved(moved(shape, first), second) == moved(shape, second),
{
    let between = shape.object().at(first);
    shape.lemma_with_object(between, between.at(second));
}

} // verus!
