//! The ordered collection of shapes, and what its owners get from it.

use vstd::prelude::*;
use crate::object::ObjectTR;
use crate::shape::Shape;

verus! {

/// The least index in `shapes` of a shape with the identity `id`, or the
/// length of `shapes` where no shape has it.
pub open spec fn first_index(shapes: Seq<Shape>, id: u32) -> int
    decreases shapes.len(),
{
    if shapes.len() == 0 {
        0
    } else if shapes[0].identity() == id {
        0
    } else {
        1 + first_index(shapes.drop_first(), id)
    }
}

/// `shapes` without the first shape that has the identity `id`; `shapes`
/// itself where no shape has it.
pub open spec fn without_first(shapes: Seq<Shape>, id: u32) -> Seq<Shape> {
    if first_index(shapes, id) < shapes.len() {
        shapes.remove(first_index(shapes, id))
    } else {
        shapes
    }
}

/// `shapes` after each of `added` was added to it by `add`, the first one
/// first.
pub open spec fn with_all(shapes: Seq<Shape>, added: Seq<Shape>) -> Seq<Shape>
    decreases added.len(),
{
    if added.len() == 0 {
        shapes
    } else {
        with_all(shapes.push(added[0]), added.drop_first())
    }
}

/// `first_index` is the index of a shape with the identity, no shape before
/// it has the identity, and it is the length exactly when no shape has it.
pub proof fn lemma_first_index(shapes: Seq<Shape>, id: u32)
    ensures
        0 <= first_index(shapes, id) <= shapes.len(),
        first_index(shapes, id) < shapes.len() ==> shapes[first_index(shapes, id)].identity() == id,
        forall|i: int| 0 <= i < first_index(shapes, id) ==> (#[trigger] shapes[i]).identity() != id,
    decreases shapes.len(),
{
    if shapes.len() != 0 && shapes[0].identity() != id {
        let rest = shapes.drop_first();
        lemma_first_index(rest, id);
        assert forall|i: int| 0 <= i < first_index(shapes, id) implies (#[trigger] shapes[i]).identity()
            != id by {
            if i > 0 {
                assert(shapes[i] == rest[i - 1]);
            }
        }
    }
}

/// An index at which the identity stands, with no shape before it that has
/// the identity, is `first_index`.
pub proof fn lemma_first_index_is(shapes: Seq<Shape>, id: u32, at: int)
    requires
        0 <= at <= shapes.len(),
        at < shapes.len() ==> shapes[at].identity() == id,
        forall|i: int| 0 <= i < at ==> (#[trigger] shapes[i]).identity() != id,
    ensures
        first_index(shapes, id) == at,
{
    lemma_first_index(shapes, id);
}

/// Removing by an identity that no shape has changes nothing.
pub proof fn lemma_without_first_absent(shapes: Seq<Shape>, id: u32)
    requires
        forall|i: int| 0 <= i < shapes.len() ==> (#[trigger] shapes[i]).identity() != id,
    ensures
        without_first(shapes, id) == shapes,
{
    lemma_first_index_is(shapes, id, shapes.len() as int);
}

/// Removing by an identity takes out the first shape that has it, and only
/// that one: the shapes before it and after it stay, in their order.
pub proof fn lemma_without_first_present(shapes: Seq<Shape>, id: u32, at: int)
    requires
        0 <= at < shapes.len(),
        shapes[at].identity() == id,
        forall|i: int| 0 <= i < at ==> (#[trigger] shapes[i]).identity() != id,
    ensures
        without_first(shapes, id) == shapes.subrange(0, at) + shapes.subrange(at + 1, shapes.len() as int),
        without_first(shapes, id).len() == shapes.len() - 1,
{
    lemma_first_index_is(shapes, id, at);
}

/// Adding keeps the order: after any number of additions the collection
/// holds what it held, then what was added, in the order of the additions.
pub proof fn lemma_adds_keep_order(shapes: Seq<Shape>, added: Seq<Shape>)
    ensures
        with_all(shapes, added) == shapes + added,
    decreases added.len(),
{
    if added.len() == 0 {
        assert(shapes + added == shapes);
    } else {
        lemma_adds_keep_order(shapes.push(added[0]), added.drop_first());
        assert(shapes.push(added[0]) + added.drop_first() == shapes + added);
    }
}

/// The shapes that a component holds, in the order in which they were added.
/// Nothing keeps two shapes from having one identity.
#[derive(Debug)]
pub struct Collection {
    pub objects: Vec<Shape>,
}

impl View for Collection {
    type V = Seq<Shape>;

    open spec fn view(&self) -> Seq<Shape> {
        self.objects@
    }
}

impl Collection {
    /// The collection that holds nothing.
    pub fn new() -> (made: Collection)
        ensures
            made@ == Seq::<Shape>::empty(),
    {
        Collection { objects: Vec::new() }
    }

    /// Puts `obj` at the end. This cannot fail: the result is `true`.
    pub fn add(&mut self, obj: Shape) -> (done: bool)
        ensures
            done,
            final(self)@ == old(self)@.push(obj),
    {
        self.objects.push(obj);
        true
    }

    /// Takes out the first shape whose identity is that of `obj`, and keeps
    /// the others in their order. Where no shape has that identity nothing
    /// changes. The result is `true` either way.
    pub fn remove(&mut self, obj: Shape) -> (done: bool)
        ensures
            done,
            final(self)@ == without_first(old(self)@, obj.identity()),
    {
        let mut i: usize = 0;
        while i < self.objects.len()
            invariant
                i <= self.objects.len(),
                self.objects@ == old(self).objects@,
                forall|j: int| 0 <= j < i ==> (#[trigger] self.objects@[j]).identity() != obj.identity(),
            decreases self.objects.len() - i,
        {
            if self.objects[i].id() == obj.id() {
                proof {
                    lemma_first_index_is(self.objects@, obj.identity(), i as int);
                }
                let _ = self.objects.remove(i);
                return true;
            }
            i += 1;
        }
        proof {
            lemma_first_index_is(self.objects@, obj.identity(), i as int);
        }
        true
    }
}

/// A component that holds a collection, and lets it be reached, adds and
/// removes shapes through it.
///
/// `with_collection` names the same component around another collection;
/// what a method changes is stated through it, so that the rest of the
/// component is known to stay.
pub trait Collectable: Sized {
    /// The collection that the component holds.
    spec fn collection(&self) -> Collection;

    /// This component with `collection` as its collection and nothing else
    /// changed.
    spec fn with_collection(&self, collection: Collection) -> Self;

    /// Replacing the collection changes the collection and only that; the
    /// later of two replacements wins.
    proof fn lemma_with_collection(&self, first: Collection, second: Collection)
        ensures
            self.with_collection(first).collection() == first,
            self.with_collection(self.collection()) == *self,
            self.with_collection(first).with_collection(second) == self.with_collection(second),
    ;

    fn get_collection_mut(&mut self) -> (collection: &mut Collection)
        ensures
            *collection == old(self).collection(),
            *final(self) == old(self).with_collection(*final(collection)),
    ;

    /// Puts `obj` at the end of the collection. This cannot fail: the result
    /// is `true`.
    fn add(&mut self, obj: Shape) -> (done: bool)
        ensures
            done,
            final(self).collection()@ == old(self).collection()@.push(obj),
            *final(self) == old(self).with_collection(final(self).collection()),
    {
        let collection = self.get_collection_mut();
        let done = collection.add(obj);
        proof {
            old(self).lemma_with_collection(*collection, *collection);
        }
        done
    }

    /// Takes the first shape whose identity is that of `obj` out of the
    /// collection, and keeps the others in their order. Where no shape has
    /// that identity nothing changes. The result is `true` either way.
    fn remove(&mut self, obj: Shape) -> (done: bool)
        ensures
            done,
            final(self).collection()@ == without_first(old(self).collection()@, obj.identity()),
            *final(self) == old(self).with_collection(final(self).collection()),
    {
        let collection = self.get_collection_mut();
        let done = collection.remove(obj);
        proof {
            old(self).lemma_with_collection(*collection, *collection);
        }
        done
    }
}

} // verus!
