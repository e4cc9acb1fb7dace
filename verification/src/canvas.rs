//! The canvas: a surface handle, the collection painted on it, and the
//! repaint.

use vstd::prelude::*;
use crate::collection::{Collectable, Collection};
use crate::geometry::{Point, Region, Scalar};
use crate::object::ObjectTR;
use crate::shape::Shape;
use crate::surface::DrawCommand;

verus! {

/// Bit pattern of 0, both coordinates of the origin of the region that a new
/// canvas clears.
pub const CLEAR_ORIGIN_BITS: u64 = 0;

/// Bit pattern of 1000, the width and the height of the region that a new
/// canvas clears.
pub const CLEAR_EXTENT_BITS: u64 = 0x408F_4000_0000_0000;

/// The region that a new canvas clears before it repaints. It does not depend
/// on the size of the surface.
pub open spec fn default_clear_region() -> Region {
    Region {
        origin: Point { x: Scalar { bits: CLEAR_ORIGIN_BITS }, y: Scalar { bits: CLEAR_ORIGIN_BITS } },
        width: Scalar { bits: CLEAR_EXTENT_BITS },
        height: Scalar { bits: CLEAR_EXTENT_BITS },
    }
}

/// What the shapes paint, one after the other, in their order.
pub open spec fn painted_all(shapes: Seq<Shape>) -> Seq<DrawCommand>
    decreases shapes.len(),
{
    if shapes.len() == 0 {
        Seq::empty()
    } else {
        painted_all(shapes.drop_last()) + shapes.last().painted()
    }
}

/// Shapes paint in their order: what two runs of shapes paint, one run after
/// the other, is what the first run paints and then what the second paints.
pub proof fn lemma_painted_all_concat(first: Seq<Shape>, second: Seq<Shape>)
    ensures
        painted_all(first + second) == painted_all(first) + painted_all(second),
    decreases second.len(),
{
    if second.len() == 0 {
        assert(first + second == first);
    } else {
        lemma_painted_all_concat(first, second.drop_last());
        assert((first + second).drop_last() == first + second.drop_last());
        assert((first + second).last() == second.last());
    }
}

/// The owner of a surface and of the shapes shown on it. The canvas never
/// looks into the handle `S` of its surface: it keeps it for the host.
#[derive(Debug)]
pub struct StaticCanvas<S> {
    surface: S,
    collection: Collection,
    clear_region: Region,
}

impl<S> StaticCanvas<S> {
    /// The handle of the surface.
    pub closed spec fn spec_surface(&self) -> S {
        self.surface
    }

    /// The region that is cleared before each repaint.
    pub closed spec fn spec_clear_region(&self) -> Region {
        self.clear_region
    }

    /// One repaint: the clear, then every shape in the order of the
    /// collection.
    pub open spec fn frame(&self) -> Seq<DrawCommand> {
        seq![DrawCommand::ClearRect(self.spec_clear_region())] + painted_all(self.collection()@)
    }

    /// Replacing the collection leaves the surface and the cleared region
    /// alone.
    pub proof fn lemma_with_collection_rest(&self, collection: Collection)
        ensures
            self.with_collection(collection).spec_surface() == self.spec_surface(),
            self.with_collection(collection).spec_clear_region() == self.spec_clear_region(),
    {
    }

    /// An empty canvas on `surface`, which clears the default region.
    pub fn new(surface: S) -> (made: StaticCanvas<S>)
        ensures
            made.spec_surface() == surface,
            made.collection()@ == Seq::<Shape>::empty(),
            made.spec_clear_region() == default_clear_region(),
    {
        StaticCanvas {
            surface,
            collection: Collection::new(),
            clear_region: Region {
                origin: Point {
                    x: Scalar { bits: CLEAR_ORIGIN_BITS },
                    y: Scalar { bits: CLEAR_ORIGIN_BITS },
                },
                width: Scalar { bits: CLEAR_EXTENT_BITS },
                height: Scalar { bits: CLEAR_EXTENT_BITS },
            },
        }
    }

    /// The commands of one repaint: the region is cleared, then each shape of
    /// the collection paints itself, in the order in which the shapes were
    /// added. Every repaint paints everything; the canvas and its shapes are
    /// only read.
    pub fn render_all(&self) -> (frame: Vec<DrawCommand>)
        ensures
            frame@ == self.frame(),
    {
        let mut frame: Vec<DrawCommand> = Vec::new();
        frame.push(DrawCommand::ClearRect(self.clear_region));
        let mut i: usize = 0;
        while i < self.collection.objects.len()
            invariant
                i <= self.collection.objects.len(),
                frame@ == seq![DrawCommand::ClearRect(self.clear_region)] + painted_all(
                    self.collection.objects@.take(i as int),
                ),
            decreases self.collection.objects.len() - i,
        {
            proof {
                let next = self.collection.objects@.take(i + 1);
                assert(next.drop_last() == self.collection.objects@.take(i as int));
                assert(next.last() == self.collection.objects@[i as int]);
            }
            self.collection.objects[i].render(&mut frame);
            i += 1;
        }
        proof {
            assert(self.collection.objects@.take(i as int) == self.collection.objects@);
        }
        frame
    }

    /// Sets the region that is cleared before each repaint.
    pub fn set_clear_region(&mut self, region: Region)
        ensures
            final(self).spec_clear_region() == region,
            final(self).spec_surface() == old(self).spec_surface(),
            final(self).collection() == old(self).collection(),
    {
        self.clear_region = region;
    }

    /// The handle of the surface.
    pub fn surface(&self) -> (surface: &S)
        ensures
            *surface == self.spec_surface(),
    {
        &self.surface
    }

    /// The region that is cleared before each repaint.
    pub fn clear_region(&self) -> (region: Region)
        ensures
            region == self.spec_clear_region(),
    {
        self.clear_region
    }

    /// The collection, to read.
    pub fn get_collection(&self) -> (collection: &Collection)
        ensures
            *collection == self.collection(),
    {
        &self.collection
    }
}

impl<S> Collectable for StaticCanvas<S> {
    closed spec fn collection(&self) -> Collection {
        self.collection
    }

    closed spec fn with_collection(&self, collection: Collection) -> StaticCanvas<S> {
        StaticCanvas { surface: self.surface, collection, clear_region: self.clear_region }
    }

    proof fn lemma_with_collection(&self, first: Collection, second: Collection) {
    }

    fn get_collection_mut(&mut self) -> (collection: &mut Collection) {
        &mut self.collection
    }
}

} // verus!
