//! The slot of a container: where its value lives.

use vstd::prelude::*;

verus! {

/// The place a container's value lives in, taken apart from the container.
///
/// Whoever holds an `Owned` slot holds the allocation and is the one to
/// release it; a `Borrowed` slot points at a value that some other scope
/// keeps alive for `'a`.
pub enum Raw<'a, T: 'a + ?Sized> {
    /// A value that lives elsewhere for at least `'a`.
    Borrowed(&'a T),
    /// A heap allocation that belongs to the holder of the slot.
    Owned(Box<T>),
}

impl<'a, T: 'a + ?Sized> Raw<'a, T> {
    /// The value that the slot leads to.
    pub open spec fn value(&self) -> &T {
        match self {
            Raw::Borrowed(r) => *r,
            Raw::Owned(b) => &**b,
        }
    }

    /// Whether the slot holds its own allocation.
    pub open spec fn owns(&self) -> bool {
        self is Owned
    }

    /// The reference that the slot was made of, if it was made of one.
    pub open spec fn borrowed(&self) -> Option<&'a T> {
        match self {
            Raw::Borrowed(r) => Some(*r),
            Raw::Owned(_) => None,
        }
    }

    /// Read access to the value, wherever it lives.
    pub fn get(&self) -> (value: &T)
        ensures
            value == self.value(),
    {
        match self {
            Raw::Borrowed(r) => *r,
            Raw::Owned(b) => &**b,
        }
    }

    /// The value of a slot that owns it, for writing. The slot goes on owning
    /// the allocation; what it holds afterwards is what the caller left there.
    pub(crate) fn owned_mut(&mut self) -> (value: &mut T)
        requires
            old(self).owns(),
        ensures
            &*value == old(self).value(),
            final(self).owns(),
            final(self).value() == &*final(value),
        no_unwind
    {
        match self {
            Raw::Owned(b) => &mut **b,
            Raw::Borrowed(_) => vstd::pervasive::unreached(),
        }
    }
}

} // verus!
