//! Cloning a value into a box of its own, for the values that a container
//! may have to take over: whatever is `Clone`, and `str`, slices and paths,
//! which are cloned by way of their owned buffers.

use vstd::prelude::*;

verus! {

/// A value that can be cloned into a new box.
pub trait ToBox {
    /// Whether `b` is what a box holds that `self` was cloned into.
    spec fn boxes(&self, b: &Self) -> bool;

    /// Clones the value into a new allocation.
    fn to_box(&self) -> (b: Box<Self>)
        ensures
            self.boxes(&*b),
    ;
}

impl<T: Clone> ToBox for T {
    open spec fn boxes(&self, b: &T) -> bool {
        cloned(*self, *b)
    }

    fn to_box(&self) -> (b: Box<T>) {
        Box::new(self.clone())
    }
}

impl ToBox for str {
    open spec fn boxes(&self, b: &str) -> bool {
        b@ == self@
    }

    fn to_box(&self) -> (b: Box<str>) {
        boxed_str(self.to_owned())
    }
}

impl<T: Clone> ToBox for [T] {
    open spec fn boxes(&self, b: &[T]) -> bool {
        &&& b@.len() == self@.len()
        &&& forall|i: int| 0 <= i < self@.len() ==> cloned(self@[i], #[trigger] b@[i])
    }

    fn to_box(&self) -> (b: Box<[T]>) {
        boxed_slice(slice_to_owned(self))
    }
}

impl ToBox for std::path::Path {
    open spec fn boxes(&self, b: &std::path::Path) -> bool {
        b == &*boxed_path_of(path_buf_of(self))
    }

    fn to_box(&self) -> (b: Box<std::path::Path>) {
        boxed_path(path_to_buf(self))
    }
}

/// Turns a vector into a boxed slice with `Vec::into_boxed_slice` of std,
/// which keeps the elements and their order.
#[verifier::external_body]
pub(crate) fn boxed_slice<T>(v: Vec<T>) -> (b: Box<[T]>)
    ensures
        b@ == v@,
{
    v.into_boxed_slice()
}

/// Turns a string into a boxed `str` with `String::into_boxed_str` of std,
/// which keeps the characters.
#[verifier::external_body]
pub(crate) fn boxed_str(s: String) -> (b: Box<str>)
    ensures
        b@ == s@,
{
    s.into_boxed_str()
}

/// Clones a slice into a vector with `ToOwned::to_owned` of std for slices,
/// which gives a vector of the same length whose elements are clones of the
/// slice's, each in its place.
#[verifier::external_body]
fn slice_to_owned<T: Clone>(s: &[T]) -> (v: Vec<T>)
    ensures
        v@.len() == s@.len(),
        forall|i: int| 0 <= i < s@.len() ==> cloned(s@[i], #[trigger] v@[i]),
{
    s.to_owned()
}

/// The path slice of std. Nothing is known of what a path holds.
#[verifier::external_type_specification]
#[verifier::external_body]
pub struct ExPath(std::path::Path);

/// The path buffer of std. Nothing is known of what a path holds.
#[verifier::external_type_specification]
#[verifier::external_body]
pub struct ExPathBuf(std::path::PathBuf);

/// The boxed path that `PathBuf::into_boxed_path` of std turns a path buffer
/// into.
pub uninterp spec fn boxed_path_of(p: std::path::PathBuf) -> Box<std::path::Path>;

/// The path buffer that `Path::to_path_buf` of std copies a path into.
pub uninterp spec fn path_buf_of(p: &std::path::Path) -> std::path::PathBuf;

/// Turns a path buffer into a boxed path with `PathBuf::into_boxed_path` of
/// std. The result is known by that name only: which box it is depends on
/// the buffer alone.
#[verifier::external_body]
pub(crate) fn boxed_path(p: std::path::PathBuf) -> (b: Box<std::path::Path>)
    ensures
        b == boxed_path_of(p),
{
    p.into_boxed_path()
}

/// Copies a path into a buffer of its own with `Path::to_path_buf` of std.
/// The result is known by that name only: which buffer it is depends on the
/// path alone.
#[verifier::external_body]
fn path_to_buf(p: &std::path::Path) -> (buf: std::path::PathBuf)
    ensures
        buf == path_buf_of(p),
{
    p.to_path_buf()
}

} // verus!
