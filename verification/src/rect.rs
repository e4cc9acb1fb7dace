//! The rectangle, the one kind of shape there is.

use vstd::prelude::*;
use crate::geometry::{Region, Scalar};
use crate::object::{Createable, Object, ObjectTR};
use crate::surface::DrawCommand;

verus! {

/// The identity of every rectangle that `new` makes.
pub const DEFAULT_ID: u32 = 123;

/// Bit pattern of 50, the width and the height of a new rectangle.
pub const DEFAULT_EXTENT_BITS: u64 = 0x4049_0000_0000_0000;

/// A filled rectangle: its origin is the position of its base state.
#[derive(Debug)]
pub struct Rect {
    id: u32,
    object: Object,
    width: Scalar,
    height: Scalar,
}

impl Rect {
    /// The horizontal extent.
    pub closed spec fn spec_width(&self) -> Scalar {
        self.width
    }

    /// The vertical extent.
    pub closed spec fn spec_height(&self) -> Scalar {
        self.height
    }

    /// The part of the surface that the rectangle covers.
    pub open spec fn region(&self) -> Region {
        Region { origin: self.object().point, width: self.spec_width(), height: self.spec_height() }
    }

    /// Replacing the base state leaves the extents alone.
    pub proof fn lemma_with_object_extents(&self, object: Object)
        ensures
            self.with_object(object).spec_width() == self.spec_width(),
            self.with_object(object).spec_height() == self.spec_height(),
    {
    }

    /// What `new` makes, field by field.
    pub proof fn lemma_created()
        ensures
            Rect::created().identity() == DEFAULT_ID,
            Rect::created().object() == Object::created(),
            Rect::created().spec_width() == (Scalar { bits: DEFAULT_EXTENT_BITS }),
            Rect::created().spec_height() == (Scalar { bits: DEFAULT_EXTENT_BITS }),
    {
    }

    /// Construction is the same every time: two rectangles that `new` made
    /// are one in identity, position, opacity, width and height.
    pub proof fn lemma_new_alike(first: Rect, second: Rect)
        requires
            first == Rect::created(),
            second == Rect::created(),
        ensures
            first == second,
            first.identity() == second.identity(),
            first.object() == second.object(),
            first.spec_width() == second.spec_width(),
            first.spec_height() == second.spec_height(),
    {
    }

    /// A rectangle like a new one, but with the identity `id`.
    pub fn with_id(id: u32) -> (made: Rect)
        ensures
            made.identity() == id,
            made.object() == Object::created(),
            made.spec_width() == (Scalar { bits: DEFAULT_EXTENT_BITS }),
            made.spec_height() == (Scalar { bits: DEFAULT_EXTENT_BITS }),
    {
        Rect {
            id,
            width: Scalar { bits: DEFAULT_EXTENT_BITS },
            height: Scalar { bits: DEFAULT_EXTENT_BITS },
            object: Object::new(),
        }
    }

    /// The base state.
    pub fn get_object(&self) -> (object: &Object)
        ensures
            *object == self.object(),
    {
        &self.object
    }

    /// The horizontal extent.
    pub fn width(&self) -> (width: Scalar)
        ensures
            width == self.spec_width(),
    {
        self.width
    }

    /// The vertical extent.
    pub fn height(&self) -> (height: Scalar)
        ensures
            height == self.spec_height(),
    {
        self.height
    }
}

impl ObjectTR for Rect {
    closed spec fn identity(&self) -> u32 {
        self.id
    }

    closed spec fn object(&self) -> Object {
        self.object
    }

    closed spec fn with_object(&self, object: Object) -> Rect {
        Rect { id: self.id, object, width: self.width, height: self.height }
    }

    /// The alpha of the surface is set to the opacity, and stays set; then the
    /// rectangle's region is filled.
    open spec fn painted(&self) -> Seq<DrawCommand> {
        seq![
            DrawCommand::SetGlobalAlpha(self.object().opacity),
            DrawCommand::FillRect(self.region()),
        ]
    }

    proof fn lemma_with_object(&self, first: Object, second: Object) {
    }

    fn id(&self) -> (id: u32) {
        self.id
    }

    fn get_object_mut(&mut self) -> (object: &mut Object) {
        &mut self.object
    }

    fn render(&self, surface: &mut Vec<DrawCommand>) {
        surface.push(DrawCommand::SetGlobalAlpha(self.object.opacity));
        surface.push(
            DrawCommand::FillRect(
                Region { origin: self.object.point, width: self.width, height: self.height },
            ),
        );
    }
}

impl Createable<Rect> for Rect {
    closed spec fn created() -> Rect {
        Rect {
            id: DEFAULT_ID,
            object: Object::created(),
            width: Scalar { bits: DEFAULT_EXTENT_BITS },
            height: Scalar { bits: DEFAULT_EXTENT_BITS },
        }
    }

    fn new() -> (made: Rect)
        ensures
            made.identity() == DEFAULT_ID,
            made.object() == Object::created(),
            made.spec_width() == (Scalar { bits: DEFAULT_EXTENT_BITS }),
            made.spec_height() == (Scalar { bits: DEFAULT_EXTENT_BITS }),
    {
        Rect::with_id(DEFAULT_ID)
    }
}

} // verus!
