//! The container itself.

use crate::boxed::ToBox;
use crate::raw::Raw;
use vstd::prelude::*;

verus! {

/// A value that is either borrowed for `'a` or owned in a `Box`.
///
/// Seen from outside, a container is its slot: `rob@` is the [`Raw`] that it
/// holds. `rob@.value()` is what the container reads as, and `rob@.owns()`
/// says whether the value goes away with the container.
pub struct Rob<'a, T: 'a + ?Sized> {
    ptr: Raw<'a, T>,
    is_owned: bool,
}

impl<'a, T: 'a + ?Sized> View for Rob<'a, T> {
    type V = Raw<'a, T>;

    closed spec fn view(&self) -> Raw<'a, T> {
        self.ptr
    }
}

impl<'a, T: 'a> Rob<'a, T> {
    /// Creates a container that owns `value`, in a new allocation.
    pub fn from_value(value: T) -> (rob: Self)
        ensures
            rob@ == Raw::<'a, T>::Owned(Box::new(value)),
    {
        Self::from_box(Box::new(value))
    }
}

impl<'a, T: 'a + ?Sized> Rob<'a, T> {
    /// The flag says what the slot is: it is set exactly when the slot holds
    /// its own allocation. This holds of every container that a program can
    /// get hold of.
    #[verifier::type_invariant]
    pub closed spec fn wf(&self) -> bool {
        self.is_owned == self.ptr.owns()
    }

    /// The container that holds the given slot.
    pub closed spec fn of(slot: Raw<'a, T>) -> Self {
        Rob { ptr: slot, is_owned: slot.owns() }
    }

    /// The slot and the flag that the container comes apart into.
    pub open spec fn parts(&self) -> (Raw<'a, T>, bool) {
        (self@, self@.owns())
    }

    /// The container made of a slot is well formed and holds that slot.
    pub proof fn lemma_of_view(slot: Raw<'a, T>)
        ensures
            Self::of(slot).wf(),
            Self::of(slot)@ == slot,
    {
    }

    /// A well-formed container is the one that its slot gives: two of them
    /// that hold the same slot are the same container.
    pub proof fn lemma_wf_is_of(this: Self)
        requires
            this.wf(),
        ensures
            this == Self::of(this@),
    {
    }

    /// Taking a container apart and putting the parts together again gives
    /// the container back: it reads as the same value and is owned exactly
    /// if it was before. The parts always fit: their flag says what their
    /// slot is.
    pub proof fn lemma_raw_round_trip(this: Self)
        requires
            this.wf(),
        ensures
            this.parts().1 == this.parts().0.owns(),
            Self::of(this.parts().0) == this,
            Self::of(this.parts().0)@.value() == this@.value(),
            Self::of(this.parts().0)@.owns() == this@.owns(),
    {
    }

    /// Putting a slot and a fitting flag together and taking the container
    /// apart again gives back that slot and that flag.
    pub proof fn lemma_parts_round_trip(ptr: Raw<'a, T>, is_owned: bool)
        requires
            is_owned == ptr.owns(),
        ensures
            Self::of(ptr).parts() == (ptr, is_owned),
    {
    }

    /// Creates a container that borrows the value behind `r`.
    pub fn from_ref(r: &'a T) -> (rob: Self)
        ensures
            rob@ == Raw::Borrowed(r),
    {
        Rob { ptr: Raw::Borrowed(r), is_owned: false }
    }

    /// Creates a container that owns the value in `b`, taking over its
    /// allocation.
    pub fn from_box(b: Box<T>) -> (rob: Self)
        ensures
            rob@ == Raw::<'a, T>::Owned(b),
    {
        Rob { ptr: Raw::Owned(b), is_owned: true }
    }

    /// Puts a container together from a slot and an ownership flag. The flag
    /// has to say what the slot is.
    pub fn from_raw(ptr: Raw<'a, T>, is_owned: bool) -> (rob: Self)
        requires
            is_owned == ptr.owns(),
        ensures
            rob == Self::of(ptr),
            rob@ == ptr,
    {
        Rob { ptr, is_owned }
    }

    /// Takes the container apart into its slot and its ownership flag. With
    /// the flag set, releasing the value is from now on up to whoever holds
    /// the slot.
    pub fn into_raw(this: Self) -> (parts: (Raw<'a, T>, bool))
        ensures
            parts == this.parts(),
    {
        proof {
            use_type_invariant(&this);
        }
        let Rob { ptr, is_owned } = this;
        (ptr, is_owned)
    }

    /// The borrowed reference with its full lifetime `'a`, if the value is
    /// borrowed. An owned value lives only as long as the container, so for
    /// it there is no such reference.
    pub fn as_ref(this: &Self) -> (r: Option<&'a T>)
        ensures
            r == this@.borrowed(),
            r.is_some() <==> !this@.owns(),
    {
        match &this.ptr {
            Raw::Borrowed(r) => Some(*r),
            Raw::Owned(_) => None,
        }
    }

    /// Whether the container owns its value.
    pub fn is_owned(this: &Self) -> (owned: bool)
        ensures
            owned == this@.owns(),
    {
        proof {
            use_type_invariant(this);
        }
        this.is_owned
    }
}

impl<'a, T: 'a + ?Sized + ToBox> Rob<'a, T> {
    /// Turns the container into a `Box` of its value. An owned value moves
    /// over in its allocation; a borrowed one is cloned into a new one.
    pub fn into_box(this: Self) -> (b: Box<T>)
        ensures
            match this@ {
                Raw::Owned(held) => b == held,
                Raw::Borrowed(r) => r.boxes(&*b),
            },
    {
        let Rob { ptr, is_owned: _ } = this;
        match ptr {
            Raw::Owned(b) => b,
            Raw::Borrowed(r) => r.to_box(),
        }
    }

    /// A mutable reference to the value. A borrowed value is first cloned
    /// into a new allocation that the container then owns, so the source it
    /// was borrowed from is never written to. Afterwards the container owns
    /// whatever the caller leaves behind the reference.
    pub fn to_mut(this: &mut Self) -> (value: &mut T)
        ensures
            match old(this)@ {
                Raw::Owned(held) => &*value == &*held,
                Raw::Borrowed(r) => r.boxes(&*value),
            },
            final(this)@.owns(),
            final(this)@.value() == &*final(value),
    {
        if let Some(r) = Rob::as_ref(this) {
            *this = Rob::from_box(r.to_box());
        }
        proof {
            use_type_invariant(&*this);
        }
        this.ptr.owned_mut()
    }
}

impl<'a, T: 'a + ?Sized> std::ops::Deref for Rob<'a, T> {
    type Target = T;

    /// Read access to the value, owned or not.
    fn deref(&self) -> (value: &T)
        ensures
            value == self@.value(),
    {
        self.ptr.get()
    }
}

impl<'a, T: 'a + Clone> Clone for Rob<'a, T> {
    /// An owned value is cloned into a new allocation of the copy's own; a
    /// borrowed one is not touched, and the copy borrows from the same source.
    fn clone(&self) -> (copy: Self)
        ensures
            match self@ {
                Raw::Owned(held) => copy@.owns() && cloned(*held, *copy@.value()),
                Raw::Borrowed(r) => copy@ == self@,
            },
    {
        match Rob::as_ref(self) {
            Some(r) => Rob::from_ref(r),
            None => Rob::from_value((**self).clone()),
        }
    }
}

} // verus!
