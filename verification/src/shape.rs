//! The closed set of shapes that a collection can hold.

use vstd::prelude::*;
use crate::object::{Object, ObjectTR};
use crate::rect::Rect;
use crate::surface::DrawCommand;

verus! {

/// A drawable of any kind. Each kind of shape is one variant, and a shape
/// does what its variant does.
///
/// Two shapes are equal (`==`) when their identities are, whatever else they
/// hold.
#[derive(Debug)]
pub enum Shape {
    Rect(Rect),
}

impl ObjectTR for Shape {
    open spec fn identity(&self) -> u32 {
        match self {
            Shape::Rect(rect) => rect.identity(),
        }
    }

    open spec fn object(&self) -> Object {
        match self {
            Shape::Rect(rect) => rect.object(),
        }
    }

    open spec fn with_object(&self, object: Object) -> Shape {
        match self {
            Shape::Rect(rect) => Shape::Rect(rect.with_object(object)),
        }
    }

    open spec fn painted(&self) -> Seq<DrawCommand> {
        match self {
            Shape::Rect(rect) => rect.painted(),
        }
    }

    proof fn lemma_with_object(&self, first: Object, second: Object) {
        match self {
            Shape::Rect(rect) => rect.lemma_with_object(first, second),
        }
    }

    fn id(&self) -> (id: u32) {
        match self {
            Shape::Rect(rect) => rect.id(),
        }
    }

    fn get_object_mut(&mut self) -> (object: &mut Object) {
        match self {
            Shape::Rect(rect) => rect.get_object_mut(),
        }
    }

    fn render(&self, surface: &mut Vec<DrawCommand>) {
        match self {
            Shape::Rect(rect) => rect.render(surface),
        }
    }
}

impl PartialEq for Shape {
    fn eq(&self, other: &Shape) -> (equal: bool) {
        self.id() == other.id()
    }
}

impl vstd::std_specs::cmp::PartialEqSpecImpl for Shape {
    open spec fn obeys_eq_spec() -> bool {
        true
    }

    open spec fn eq_spec(&self, other: &Shape) -> bool {
        self.identity() == other.identity()
    }
}

} // verus!
