//! What a container can be made of with `From` and `into`: a value, a
//! reference, a box, a `Cow`, and the owned buffers of slices, strings and paths.

use crate::boxed::boxed_path;
use crate::boxed::boxed_path_of;
use crate::boxed::boxed_slice;
use crate::boxed::boxed_str;
use crate::raw::Raw;
use crate::rob::Rob;
use std::borrow::Cow;
use vstd::prelude::*;

verus! {

impl<'a, T: 'a> From<T> for Rob<'a, T> {
    /// A value becomes a container that owns it.
    fn from(value: T) -> (rob: Self)
        ensures
            rob@ == Raw::<'a, T>::Owned(Box::new(value)),
    {
        let rob = Rob::from_value(value);
        proof {
            use_type_invariant(&rob);
            Rob::lemma_wf_is_of(rob);
        }
        rob
    }
}

impl<'a, T: 'a> vstd::std_specs::convert::FromSpecImpl<T> for Rob<'a, T> {
    open spec fn obeys_from_spec() -> bool {
        true
    }

    open spec fn from_spec(value: T) -> Self {
        Rob::of(Raw::Owned(Box::new(value)))
    }
}

impl<'a, T: 'a + ?Sized> From<&'a T> for Rob<'a, T> {
    /// A reference becomes a container that borrows through it.
    fn from(r: &'a T) -> (rob: Self)
        ensures
            rob@ == Raw::Borrowed(r),
    {
        let rob = Rob::from_ref(r);
        proof {
            use_type_invariant(&rob);
            Rob::lemma_wf_is_of(rob);
        }
        rob
    }
}

impl<'a, T: 'a + ?Sized> vstd::std_specs::convert::FromSpecImpl<&'a T> for Rob<'a, T> {
    open spec fn obeys_from_spec() -> bool {
        true
    }

    open spec fn from_spec(r: &'a T) -> Self {
        Rob::of(Raw::Borrowed(r))
    }
}

impl<'a, T: 'a + ?Sized> From<Box<T>> for Rob<'a, T> {
    /// A box becomes a container that owns the box's allocation.
    fn from(b: Box<T>) -> (rob: Self)
        ensures
            rob@ == Raw::<'a, T>::Owned(b),
    {
        let rob = Rob::from_box(b);
        proof {
            use_type_invariant(&rob);
            Rob::lemma_wf_is_of(rob);
        }
        rob
    }
}

impl<'a, T: 'a + ?Sized> vstd::std_specs::convert::FromSpecImpl<Box<T>> for Rob<'a, T> {
    open spec fn obeys_from_spec() -> bool {
        true
    }

    open spec fn from_spec(b: Box<T>) -> Self {
        Rob::of(Raw::Owned(b))
    }
}

impl<'a, T: 'a + Clone> From<Cow<'a, T>> for Rob<'a, T> {
    /// A `Cow` becomes a container in the state that the `Cow` was in: what
    /// it borrowed stays borrowed, and what it owned is moved into a box,
    /// not cloned.
    fn from(cow: Cow<'a, T>) -> (rob: Self)
        ensures
            rob@ == match cow {
                Cow::Borrowed(r) => Raw::Borrowed(r),
                Cow::Owned(o) => Raw::Owned(Box::new(o)),
            },
    {
        let rob = match cow {
            Cow::Borrowed(r) => Rob::from_ref(r),
            Cow::Owned(o) => Rob::from_value(o),
        };
        proof {
            use_type_invariant(&rob);
            Rob::lemma_wf_is_of(rob);
        }
        rob
    }
}

impl<'a, T: 'a + Clone> vstd::std_specs::convert::FromSpecImpl<Cow<'a, T>> for Rob<'a, T> {
    open spec fn obeys_from_spec() -> bool {
        true
    }

    open spec fn from_spec(cow: Cow<'a, T>) -> Self {
        match cow {
            Cow::Borrowed(r) => Rob::of(Raw::Borrowed(r)),
            Cow::Owned(o) => Rob::of(Raw::Owned(Box::new(o))),
        }
    }
}

impl<'a, T: 'a> From<Vec<T>> for Rob<'a, [T]> {
    /// A vector becomes a container that owns its elements as a slice.
    fn from(v: Vec<T>) -> (rob: Self)
        ensures
            rob@.owns(),
            rob@.value()@ == v@,
    {
        let b = boxed_slice(v);
        proof {
            let chosen = choose|c: Box<[T]>| c@ == v@;
            assert(chosen@ == b@);
            assert(chosen =~= b);
        }
        let rob = Rob::from_box(b);
        proof {
            use_type_invariant(&rob);
            Rob::lemma_wf_is_of(rob);
        }
        rob
    }
}

impl<'a, T: 'a> vstd::std_specs::convert::FromSpecImpl<Vec<T>> for Rob<'a, [T]> {
    open spec fn obeys_from_spec() -> bool {
        true
    }

    open spec fn from_spec(v: Vec<T>) -> Self {
        Rob::of(Raw::Owned(choose|b: Box<[T]>| b@ == v@))
    }
}

impl<'a> From<String> for Rob<'a, str> {
    /// A string becomes a container that owns its characters as a `str`.
    fn from(s: String) -> (rob: Self)
        ensures
            rob@.owns(),
            rob@.value()@ == s@,
    {
        Rob::from_box(boxed_str(s))
    }
}

/// A boxed `str` is known here only by its characters, and two of them with
/// the same characters are not known to be the same value. So `from` is not
/// held to `from_spec`: what it promises is in its own contract.
impl<'a> vstd::std_specs::convert::FromSpecImpl<String> for Rob<'a, str> {
    open spec fn obeys_from_spec() -> bool {
        false
    }

    open spec fn from_spec(s: String) -> Self {
        Rob::of(Raw::Owned(choose|b: Box<str>| b@ == s@))
    }
}

impl<'a> From<std::path::PathBuf> for Rob<'a, std::path::Path> {
    /// A path buffer becomes a container that owns the path, in the box
    /// that the buffer turns into.
    fn from(p: std::path::PathBuf) -> (rob: Self)
        ensures
            rob@ == Raw::<'a, std::path::Path>::Owned(boxed_path_of(p)),
    {
        let rob = Rob::from_box(boxed_path(p));
        proof {
            use_type_invariant(&rob);
            Rob::lemma_wf_is_of(rob);
        }
        rob
    }
}

impl<'a> vstd::std_specs::convert::FromSpecImpl<std::path::PathBuf> for Rob<'a, std::path::Path> {
    open spec fn obeys_from_spec() -> bool {
        true
    }

    open spec fn from_spec(p: std::path::PathBuf) -> Self {
        Rob::of(Raw::Owned(boxed_path_of(p)))
    }
}

} // verus!
