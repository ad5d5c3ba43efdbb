//! Values that are wiped from memory when they are no longer needed.

use vstd::prelude::*;
use zeroize::{Zeroize, Zeroizing};

verus! {

/// Bytes in a `zeroize::Zeroizing` container, which overwrites them when it is dropped.
#[verifier::external_body]
pub struct SecretBytes {
    inner: Zeroizing<Vec<u8>>,
}

/// The bytes that the container holds.
pub uninterp spec fn held_bytes(s: SecretBytes) -> Seq<u8>;

/// Calls `Zeroizing::new`: the container holds the bytes that it was given.
#[verifier::external_body]
fn protect(bytes: Vec<u8>) -> (r: SecretBytes)
    ensures
        held_bytes(r) == bytes@,
{
    SecretBytes { inner: Zeroizing::new(bytes) }
}

/// Calls `Zeroizing::deref`: the bytes that the container holds.
#[verifier::external_body]
fn unprotected(s: &SecretBytes) -> (r: &Vec<u8>)
    ensures
        r@ == held_bytes(*s),
{
    &s.inner
}

/// Calls `Zeroize::zeroize` of `String`: the buffer is overwritten and the string is empty.
#[verifier::external_body]
pub(crate) fn wipe_text(s: &mut String)
    ensures
        final(s)@ == ""@,
{
    s.zeroize();
}

impl View for SecretBytes {
    type V = Seq<u8>;

    open spec fn view(&self) -> Seq<u8> {
        held_bytes(*self)
    }
}

impl SecretBytes {
    /// A protected copy of `bytes`.
    pub fn new(bytes: &[u8]) -> (r: Self)
        ensures
            r@ == bytes@,
    {
        let mut copy: Vec<u8> = Vec::new();
        copy.extend_from_slice(bytes);
        assert(copy@ == bytes@);
        protect(copy)
    }

    /// The bytes of a vector, which become protected.
    pub fn from_vec(bytes: Vec<u8>) -> (r: Self)
        ensures
            r@ == bytes@,
    {
        protect(bytes)
    }

    /// The bytes.
    pub fn bytes(&self) -> (r: &Vec<u8>)
        ensures
            r@ == self@,
    {
        unprotected(self)
    }

    /// Whether there are none.
    pub fn is_empty(&self) -> (r: bool)
        ensures
            r == (self@.len() == 0),
    {
        self.bytes().len() == 0
    }
}

} // verus!
