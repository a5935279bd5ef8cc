//! Handing a heap-allocated, nul-terminated byte string across a trust
//! boundary and taking it back for release.
//!
//! A string lives in three stages: owned ([`OwnedByteString`]), transferred
//! (a non-null [`RawString`] held by a foreign caller) and released (the
//! handle consumed by [`free_rust_string`]). Each stage is a distinct type and
//! every step consumes the value of the stage before it, so a released handle
//! cannot be used or released again.
use vstd::prelude::*;

pub mod owned;
pub mod release;

verus! {

} // verus!
