//! Comparing containers: by the values they read as, never by who owns them.

use crate::rob::Rob;
use std::cmp::Ordering;
use vstd::prelude::*;
use vstd::std_specs::cmp::PartialEqSpec;
use vstd::std_specs::cmp::PartialOrdSpec;

verus! {

/// `==` and `!=` are those of the values.
impl<'a, T: 'a + ?Sized + PartialEq> PartialEq for Rob<'a, T> {
    fn eq(&self, other: &Rob<'a, T>) -> (r: bool)
        ensures
            call_ensures(T::eq, (self@.value(), other@.value()), r),
    {
        (**self).eq(&**other)
    }

    fn ne(&self, other: &Rob<'a, T>) -> (r: bool)
        ensures
            call_ensures(T::ne, (self@.value(), other@.value()), r),
    {
        (**self).ne(&**other)
    }
}

impl<'a, T: 'a + ?Sized + PartialEq> vstd::std_specs::cmp::PartialEqSpecImpl for Rob<'a, T> {
    open spec fn obeys_eq_spec() -> bool {
        T::obeys_eq_spec()
    }

    open spec fn eq_spec(&self, other: &Rob<'a, T>) -> bool {
        self@.value().eq_spec(other@.value())
    }
}

/// The order is that of the values.
impl<'a, T: 'a + ?Sized + PartialOrd> PartialOrd for Rob<'a, T> {
    fn partial_cmp(&self, other: &Rob<'a, T>) -> (r: Option<Ordering>)
        ensures
            call_ensures(T::partial_cmp, (self@.value(), other@.value()), r),
    {
        (**self).partial_cmp(&**other)
    }

    fn lt(&self, other: &Rob<'a, T>) -> (r: bool)
        ensures
            call_ensures(T::lt, (self@.value(), other@.value()), r),
    {
        (**self).lt(&**other)
    }

    fn le(&self, other: &Rob<'a, T>) -> (r: bool)
        ensures
            call_ensures(T::le, (self@.value(), other@.value()), r),
    {
        (**self).le(&**other)
    }

    fn ge(&self, other: &Rob<'a, T>) -> (r: bool)
        ensures
            call_ensures(T::ge, (self@.value(), other@.value()), r),
    {
        (**self).ge(&**other)
    }

    fn gt(&self, other: &Rob<'a, T>) -> (r: bool)
        ensures
            call_ensures(T::gt, (self@.value(), other@.value()), r),
    {
        (**self).gt(&**other)
    }
}

impl<'a, T: 'a + ?Sized + PartialOrd> vstd::std_specs::cmp::PartialOrdSpecImpl for Rob<'a, T> {
    open spec fn obeys_partial_cmp_spec() -> bool {
        T::obeys_partial_cmp_spec()
    }

    open spec fn partial_cmp_spec(&self, other: &Rob<'a, T>) -> Option<Ordering> {
        self@.value().partial_cmp_spec(other@.value())
    }
}

/// Ownership is no part of what a container is compared by: two pairs of
/// containers that read as the same values compare alike under `==` and under
/// the partial order, whichever of them own their value.
pub proof fn lemma_comparison_ignores_ownership<'a, T: ?Sized + PartialOrd>(
    a: Rob<'a, T>,
    b: Rob<'a, T>,
    c: Rob<'a, T>,
    d: Rob<'a, T>,
)
    requires
        a@.value() == c@.value(),
        b@.value() == d@.value(),
    ensures
        a.eq_spec(&b) == c.eq_spec(&d),
        a.partial_cmp_spec(&b) == c.partial_cmp_spec(&d),
        a.eq_spec(&b) == a@.value().eq_spec(b@.value()),
        a.partial_cmp_spec(&b) == a@.value().partial_cmp_spec(b@.value()),
{
}

} // verus!
