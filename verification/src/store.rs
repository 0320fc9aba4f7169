//! Slot storage for the components of one kind, addressed by typed handles.
//!
//! A store only grows: a handle, once issued, stays valid for its store.

use vstd::prelude::*;
use core::marker::PhantomData;

verus! {

/// A handle to a component of kind `T`: the number of its slot.
#[derive(Debug)]
pub struct Id<T> {
    pub index: usize,
    pub kind: PhantomData<T>,
}

impl<T> Clone for Id<T> {
    fn clone(&self) -> (r: Self)
        ensures
            r == *self,
    {
        Id { index: self.index, kind: PhantomData }
    }
}

impl<T> Copy for Id<T> {

}

impl<T> Id<T> {
    /// Whether two handles name the same slot.
    pub fn same(self, other: Id<T>) -> (r: bool)
        ensures
            r == (self == other),
    {
        self.index == other.index
    }
}

/// All components of one kind.
pub struct Store<T> {
    items: Vec<T>,
}

impl<T: View> View for Store<T> {
    type V = Seq<T::V>;

    closed spec fn view(&self) -> Seq<T::V> {
        self.items@.map_values(|t: T| t@)
    }
}

impl<T: View> Store<T> {
    /// An empty store.
    pub fn new() -> (r: Self)
        ensures
            r@ == Seq::<T::V>::empty(),
    {
        let r = Store { items: Vec::new() };
        assert(r@ =~= Seq::<T::V>::empty());
        r
    }

    /// Whether `id` names a slot of this store.
    pub open spec fn has(&self, id: Id<T>) -> bool {
        id.index < self@.len()
    }

    /// The number of components stored.
    pub fn len(&self) -> (r: usize)
        ensures
            r == self@.len(),
    {
        self.items.len()
    }

    /// Stores `value` in a new slot, after all others, and returns its handle.
    pub fn add(&mut self, value: T) -> (id: Id<T>)
        ensures
            final(self)@ == old(self)@.push(value@),
            id.index == old(self)@.len(),
    {
        let index: usize = self.items.len();
        self.items.push(value);
        assert(self@ =~= old(self)@.push(value@));
        Id { index, kind: PhantomData }
    }

    /// The component in the slot that `id` names.
    pub fn get(&self, id: Id<T>) -> (r: &T)
        requires
            self.has(id),
        ensures
            r@ == self@[id.index as int],
    {
        &self.items[id.index]
    }

    /// The component in the slot that `id` names, for writing: the store ends
    /// with whatever the caller leaves there, and every other slot as it was.
    pub fn get_mut(&mut self, id: Id<T>) -> (r: &mut T)
        requires
            old(self).has(id),
        ensures
            r@ == old(self)@[id.index as int],
            final(self)@ == old(self)@.update(id.index as int, final(r)@),
    {
        let r = &mut self.items[id.index];
        proof {
            assert(old(self).items@.update(id.index as int, *final(r)).map_values(|t: T| t@)
                =~= old(self)@.update(id.index as int, final(r)@));
        }
        r
    }
}

} // verus!
