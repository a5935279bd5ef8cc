//! The transferred and released stages: an opaque handle to a string that has
//! left the owner's automatic management, and the operation that takes it back.
use vstd::prelude::*;

use crate::owned::{has_no_nul, OwnedByteString};

verus! {

/// What a handle stands for: `None` for the null handle, otherwise the
/// contents of the string it holds.
pub type HandleView = Option<Seq<u8>>;

/// The inputs on which a release is defined: the null handle, or a handle
/// to a string that was handed out (and so holds no nul byte).
pub open spec fn in_release_domain(p: HandleView) -> bool {
    p matches Some(s) ==> has_no_nul(s)
}

/// What a release did with the handle it was given.
#[derive(Debug, Clone, Copy, PartialEq, Eq, Structural)]
pub enum ReleaseOutcome {
    /// The handle was null: nothing was deallocated.
    Ignored,
    /// The handle held a string, whose buffer was deallocated.
    Reclaimed,
}

/// The outcome of releasing a handle that stands for `p`.
pub open spec fn release_outcome(p: HandleView) -> ReleaseOutcome {
    match p {
        None => ReleaseOutcome::Ignored,
        Some(_) => ReleaseOutcome::Reclaimed,
    }
}

/// A string handed out of the owner's automatic management, or the null
/// handle. It is neither `Clone` nor `Copy`: there is one handle per buffer,
/// and releasing it consumes it.
pub struct RawString {
    target: Option<OwnedByteString>,
}

impl View for RawString {
    type V = HandleView;

    closed spec fn view(&self) -> HandleView {
        match self.target {
            None => None,
            Some(s) => Some(s@),
        }
    }
}

impl RawString {
    /// The null handle.
    pub fn null() -> (r: RawString)
        ensures
            r@ is None,
            in_release_domain(r@),
    {
        RawString { target: None }
    }

    /// True for the null handle.
    pub fn is_null(&self) -> (r: bool)
        ensures
            r == (self@ is None),
    {
        self.target.is_none()
    }

    /// The handle to `s`.
    pub(crate) fn holding(s: OwnedByteString) -> (r: RawString)
        ensures
            r@ == Some(s@),
    {
        RawString { target: Some(s) }
    }
}

/// Decides what releasing a handle does, from whether it is null alone.
pub fn release_decision(is_null: bool) -> (r: ReleaseOutcome)
    ensures
        r == (if is_null {
            ReleaseOutcome::Ignored
        } else {
            ReleaseOutcome::Reclaimed
        }),
{
    if is_null {
        ReleaseOutcome::Ignored
    } else {
        ReleaseOutcome::Reclaimed
    }
}

/// Takes a handed-out string back and drops it, so that its buffer is
/// deallocated; the null handle is accepted and left alone. The handle is
/// consumed and cannot be released twice.
pub fn free_rust_string(s: RawString) -> (r: ReleaseOutcome)
    ensures
        r == release_outcome(s@),
        r == ReleaseOutcome::Ignored <==> s@ is None,
{
    // `s` goes out of scope on return, and the string it holds with it.
    release_decision(s.is_null())
}

/// A string built from bytes that hold no nul, handed out, and released at
/// once is reclaimed: construction succeeds, the handle lies in the release
/// domain, and the release deallocates.
pub proof fn lemma_handoff_reclaims(s: Seq<u8>)
    requires
        has_no_nul(s),
    ensures
        in_release_domain(Some(s)),
        release_outcome(Some(s)) == ReleaseOutcome::Reclaimed,
{
}

/// Releasing the null handle is defined and deallocates nothing.
pub proof fn lemma_null_release_ignored()
    ensures
        in_release_domain(None),
        release_outcome(None) == ReleaseOutcome::Ignored,
{
}

/// A release is defined on every handle of its domain, null or handed out,
/// and which of the two it is alone decides whether a buffer is reclaimed.
pub proof fn lemma_release_total(p: HandleView)
    requires
        in_release_domain(p),
    ensures
        release_outcome(p) == ReleaseOutcome::Ignored || release_outcome(p)
            == ReleaseOutcome::Reclaimed,
        release_outcome(p) == ReleaseOutcome::Ignored <==> p is None,
{
}

} // verus!
