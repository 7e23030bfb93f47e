//! A container standing in for its value: borrowing, hashing and formatting
//! go straight to the value, whoever owns it.

use crate::rob::Rob;
use std::fmt::Debug;
use std::hash::Hash;
use std::hash::Hasher;
use vstd::prelude::*;

verus! {

/// A container borrows as the value it reads as.
impl<'a, T: 'a + ?Sized> std::borrow::Borrow<T> for Rob<'a, T> {
    fn borrow(&self) -> &T
        returns
            self@.value(),
    {
        &**self
    }
}

/// A container is a reference to the value it reads as.
impl<'a, T: 'a + ?Sized> AsRef<T> for Rob<'a, T> {
    fn as_ref(&self) -> (value: &T)
        ensures
            value == self@.value(),
    {
        &**self
    }
}

/// Feeds `value` into `state` with `Hash::hash` of std. Nothing is claimed of
/// the hasher afterwards.
#[verifier::external_body]
fn hash_value<T: ?Sized + Hash, H: Hasher>(value: &T, state: &mut H) {
    value.hash(state)
}

impl<'a, T: 'a + ?Sized + Hash> Hash for Rob<'a, T> {
    /// Hashes the value and nothing else, so that an owned and a borrowed
    /// container of one value hash alike.
    fn hash<H: Hasher>(&self, state: &mut H) {
        hash_value(&**self, state)
    }
}

/// The formatter of std that `Debug::fmt` writes to.
#[verifier::external_type_specification]
#[verifier::external_body]
pub struct ExFormatter<'a>(std::fmt::Formatter<'a>);

/// The error of std that formatting fails with.
#[verifier::external_type_specification]
#[verifier::external_body]
pub struct ExFmtError(std::fmt::Error);

/// Writes `value` to `f` with `Debug::fmt` of std. Nothing is claimed of what
/// was written, nor of whether writing went well.
#[verifier::external_body]
fn debug_value<T: ?Sized + Debug>(value: &T, f: &mut std::fmt::Formatter<'_>) -> Result<(), std::fmt::Error> {
    value.fmt(f)
}

impl<'a, T: 'a + ?Sized + Debug> Debug for Rob<'a, T> {
    /// Formats the value and nothing else: a container prints as its value
    /// does.
    fn fmt(&self, f: &mut std::fmt::Formatter<'_>) -> Result<(), std::fmt::Error> {
        debug_value(&**self, f)
    }
}

} // verus!
