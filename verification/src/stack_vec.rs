//! A contiguous vector type of fixed capacity backed by a pre-sized
//! buffer.
//!
//! `StackVec` behaves like a vector whose capacity is bounded by the
//! buffer it was built over: pushing replaces the next buffer slot and
//! fails once the buffer is full, so the capacity never changes.

use vstd::prelude::*;

verus! {

/// A vector of at most `capacity` elements over a fixed backing buffer.
#[derive(Debug)]
pub struct StackVec<T> {
    storage: Vec<T>,
    len: usize,
}

impl<T> StackVec<T> {
    /// The live elements, in order.
    pub closed spec fn view(&self) -> Seq<T> {
        self.storage@.take(self.len as int)
    }

    /// The fixed capacity.
    pub closed spec fn spec_capacity(&self) -> int {
        self.storage@.len() as int
    }

    /// The number of live elements.
    pub closed spec fn spec_len(&self) -> int {
        self.len as int
    }

    /// The live count never exceeds the capacity.
    pub closed spec fn wf(&self) -> bool {
        self.len <= self.storage@.len()
    }

    /// The element of the backing buffer at index `i` (live or not).
    pub closed spec fn stored(&self, i: int) -> T {
        self.storage@[i]
    }

    /// The abstraction's bounds: the length never exceeds the capacity,
    /// and the view holds exactly the live elements.
    pub proof fn lemma_bounds(&self)
        requires
            self.wf(),
        ensures
            0 <= self.spec_len() <= self.spec_capacity(),
            self@.len() == self.spec_len(),
    {
    }

    /// Builds an empty vector over `storage`; it will hold up to
    /// `storage.len()` elements.
    pub fn new(storage: Vec<T>) -> (r: StackVec<T>)
        ensures
            r.wf(),
            r.spec_capacity() == storage@.len(),
            r.spec_len() == 0,
            forall|i: int| 0 <= i < storage@.len() ==> r.stored(i) == storage@[i],
    {
        StackVec { storage, len: 0 }
    }

    /// Builds a vector over `storage` whose first `len` elements count
    /// as already pushed.
    pub fn with_len(storage: Vec<T>, len: usize) -> (r: StackVec<T>)
        requires
            len <= storage@.len(),
        ensures
            r.wf(),
            r.spec_capacity() == storage@.len(),
            r.spec_len() == len,
            r@ == storage@.take(len as int),
    {
        StackVec { storage, len }
    }

    /// The number of elements this vector can hold.
    pub fn capacity(&self) -> (r: usize)
        ensures
            r == self.spec_capacity(),
    {
        self.storage.len()
    }

    /// Shortens the vector to at most `len` elements; a `len` beyond the
    /// current length changes nothing, and the capacity never changes.
    pub fn truncate(&mut self, len: usize)
        requires
            old(self).wf(),
        ensures
            final(self).wf(),
            final(self).spec_capacity() == old(self).spec_capacity(),
            final(self).spec_len() == if len < old(self).spec_len() {
                len as int
            } else {
                old(self).spec_len()
            },
            final(self)@ == old(self)@.take(final(self).spec_len()),
            forall|i: int|
                0 <= i < old(self).spec_capacity() ==> final(self).stored(i) == old(self).stored(i),
    {
        if len < self.len {
            self.len = len;
        }
        proof {
            assert(self@ =~= old(self)@.take(self.spec_len()));
        }
    }

    /// The live elements, consuming the vector.
    pub fn into_slice(self) -> (r: Vec<T>)
        requires
            self.wf(),
        ensures
            r@ == self@,
    {
        let mut storage = self.storage;
        let _rest = storage.split_off(self.len);
        proof {
            assert(storage@ =~= self@);
        }
        storage
    }

    /// The number of elements in the vector.
    pub fn len(&self) -> (r: usize)
        ensures
            r == self.spec_len(),
    {
        self.len
    }

    /// True when the vector holds no elements.
    pub fn is_empty(&self) -> (r: bool)
        ensures
            r == (self.spec_len() == 0),
    {
        self.len == 0
    }

    /// True when the vector is at capacity.
    pub fn is_full(&self) -> (r: bool)
        ensures
            r == (self.spec_len() == self.spec_capacity()),
    {
        self.len == self.storage.len()
    }

    /// Appends `value` if the vector is not full; a full vector refuses
    /// with `Err` and nothing changes.
    pub fn push(&mut self, value: T) -> (r: Result<(), ()>)
        requires
            old(self).wf(),
        ensures
            final(self).wf(),
            final(self).spec_capacity() == old(self).spec_capacity(),
            r is Err <==> old(self).spec_len() == old(self).spec_capacity(),
            r is Err ==> *final(self) == *old(self),
            r is Ok ==> final(self).spec_len() == old(self).spec_len() + 1 && final(self)@
                =~= old(self)@.push(value),
    {
        if self.len == self.storage.len() {
            return Err(());
        }
        self.storage[self.len] = value;
        self.len = self.len + 1;
        proof {
            assert(self@ =~= old(self)@.push(value));
        }
        Ok(())
    }

    /// The live elements as a slice.
    pub fn as_slice(&self) -> (r: &[T])
        requires
            self.wf(),
        ensures
            r@ == self@,
    {
        let r = vstd::slice::slice_subrange(self.storage.as_slice(), 0, self.len);
        proof {
            assert(r@ =~= self@);
        }
        r
    }

    /// A reference to the live element at `index`.
    pub fn get(&self, index: usize) -> (r: &T)
        requires
            self.wf(),
            index < self.spec_len(),
        ensures
            *r == self@[index as int],
    {
        &self.storage[index]
    }

    /// Overwrites the live element at `index`; length and capacity never
    /// change.
    pub fn set(&mut self, index: usize, value: T)
        requires
            old(self).wf(),
            index < old(self).spec_len(),
        ensures
            final(self).wf(),
            final(self).spec_capacity() == old(self).spec_capacity(),
            final(self).spec_len() == old(self).spec_len(),
            final(self)@ =~= old(self)@.update(index as int, value),
    {
        self.storage[index] = value;
        proof {
            assert(self@ =~= old(self)@.update(index as int, value));
        }
    }
}

impl<T: Copy> StackVec<T> {
    /// Removes and returns the last element, or `None` when the vector
    /// is empty. The removed element stays in the backing buffer, so the
    /// capacity never changes.
    pub fn pop(&mut self) -> (r: Option<T>)
        requires
            old(self).wf(),
        ensures
            final(self).wf(),
            final(self).spec_capacity() == old(self).spec_capacity(),
            r is None <==> old(self).spec_len() == 0,
            r is None ==> *final(self) == *old(self),
            r is Some ==> r->0 == old(self)@.last() && final(self).spec_len() == old(
                self,
            ).spec_len() - 1 && final(self)@ =~= old(self)@.drop_last(),
    {
        if self.len == 0 {
            return None;
        }
        self.len = self.len - 1;
        let value = self.storage[self.len];
        proof {
            assert(self@ =~= old(self)@.drop_last());
        }
        Some(value)
    }
}

} // verus!
