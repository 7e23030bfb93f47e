//! A value container that holds either a shared reference with a bounded
//! lifetime or an exclusively owned boxed value of the same type, and gives
//! read access to both through one path.
//!
//! A [`Rob`] keeps its value in a [`Raw`] slot next to an ownership flag. The
//! flag always agrees with the slot, so asking whether the value is owned is a
//! plain field read.
//!
//! A borrowed value is taken over by cloning it into a box of its own, which
//! [`ToBox`] does for every `Clone` type and for `str`, slices and paths.

pub mod boxed;
pub mod compare;
pub mod convert;
pub mod forward;
pub mod raw;
pub mod rob;

pub use boxed::ToBox;
pub use raw::Raw;
pub use rob::Rob;
