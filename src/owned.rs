//! The owned stage: a byte string that holds no nul byte, so that a single
//! terminator marks its end once it is handed out.
use vstd::prelude::*;

use crate::release::{in_release_domain, RawString};

verus! {

/// True when no byte of `s` is the nul terminator.
pub open spec fn has_no_nul(s: Seq<u8>) -> bool {
    forall|i: int| 0 <= i < s.len() ==> s[i] != 0u8
}

/// True when `p` is the index of the first nul byte of `s`.
pub open spec fn is_first_nul(s: Seq<u8>, p: int) -> bool {
    &&& 0 <= p < s.len()
    &&& s[p] == 0u8
    &&& forall|i: int| 0 <= i < p ==> s[i] != 0u8
}

/// Construction failed: the input held a nul byte at `position`, the first
/// one.
#[derive(Debug, Clone, Copy, PartialEq, Eq, Structural)]
pub struct NulError {
    pub position: usize,
}

/// An owned byte string without embedded nul bytes. Its terminator is
/// implicit: it is not part of the contents.
pub struct OwnedByteString {
    bytes: Vec<u8>,
}

impl View for OwnedByteString {
    type V = Seq<u8>;

    closed spec fn view(&self) -> Seq<u8> {
        self.bytes@
    }
}

impl OwnedByteString {
    #[verifier::type_invariant]
    spec fn no_embedded_nul(self) -> bool {
        has_no_nul(self.bytes@)
    }

    /// Takes `bytes` as the contents of a new string; fails on the first nul
    /// byte among them.
    pub fn new(bytes: Vec<u8>) -> (r: Result<OwnedByteString, NulError>)
        ensures
            r is Ok <==> has_no_nul(bytes@),
            r matches Ok(s) ==> s@ == bytes@,
            r matches Err(e) ==> is_first_nul(bytes@, e.position as int),
    {
        let mut i: usize = 0;
        while i < bytes.len()
            invariant
                i <= bytes@.len(),
                forall|j: int| 0 <= j < i ==> bytes@[j] != 0u8,
            decreases bytes@.len() - i,
        {
            if bytes[i] == 0u8 {
                return Err(NulError { position: i });
            }
            i = i + 1;
        }
        Ok(OwnedByteString { bytes })
    }

    /// The contents, without the terminator.
    pub fn as_bytes(&self) -> (r: &[u8])
        ensures
            r@ == self@,
            has_no_nul(r@),
    {
        proof {
            use_type_invariant(self);
        }
        self.bytes.as_slice()
    }

    /// Hands the string out: the result is the only handle to its buffer.
    pub fn into_raw(self) -> (r: RawString)
        ensures
            r@ == Some(self@),
            in_release_domain(r@),
    {
        proof {
            use_type_invariant(&self);
        }
        RawString::holding(self)
    }

    /// The number of bytes, without the terminator.
    pub fn len(&self) -> (r: usize)
        ensures
            r == self@.len(),
    {
        self.bytes.len()
    }
}

} // verus!
