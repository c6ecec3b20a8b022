//! Byte strings that are erased when they are dropped.

use crate::bytes::copy_bytes;
use crate::primitives;
use crate::primitives::keyed_digest;
use vstd::prelude::*;

verus! {

/// Bytes held in `zeroize::Zeroizing`, which overwrites them when the holder is
/// dropped.
#[verifier::external_body]
pub struct SecretBytes {
    inner: zeroize::Zeroizing<Vec<u8>>,
}

/// The bytes that a holder keeps.
pub uninterp spec fn held_bytes(secret: SecretBytes) -> Seq<u8>;

impl View for SecretBytes {
    type V = Seq<u8>;

    open spec fn view(&self) -> Seq<u8> {
        held_bytes(*self)
    }
}

/// Calls `zeroize::Zeroizing::new`: the holder keeps exactly the bytes given.
#[verifier::external_body]
fn hold(bytes: Vec<u8>) -> (secret: SecretBytes)
    ensures
        held_bytes(secret) == bytes@,
{
    SecretBytes { inner: zeroize::Zeroizing::new(bytes) }
}

/// Calls `Zeroizing::deref`: the slice shows exactly the bytes held.
#[verifier::external_body]
fn held(secret: &SecretBytes) -> (bytes: &[u8])
    ensures
        bytes@ == held_bytes(*secret),
{
    &secret.inner
}

/// Calls `Zeroize::zeroize` on the held slice, which overwrites every byte with
/// zero.
#[verifier::external_body]
fn wipe(secret: &mut SecretBytes)
    ensures
        held_bytes(*final(secret)) == zeros(held_bytes(*old(secret)).len()),
{
    zeroize::Zeroize::zeroize(secret.inner.as_mut_slice())
}

/// `len` zero bytes.
pub open spec fn zeros(len: nat) -> Seq<u8> {
    Seq::new(len, |i: int| 0u8)
}

impl Clone for SecretBytes {
    fn clone(&self) -> (copy: SecretBytes)
        ensures
            copy@ == self@,
    {
        SecretBytes::new(copy_bytes(self.as_bytes()))
    }
}

impl SecretBytes {
    /// Takes over `bytes`.
    pub fn new(bytes: Vec<u8>) -> (secret: SecretBytes)
        ensures
            secret@ == bytes@,
    {
        hold(bytes)
    }

    /// The bytes held.
    pub fn as_bytes(&self) -> (bytes: &[u8])
        ensures
            bytes@ == self@,
    {
        held(self)
    }

    /// Overwrites the bytes with zeros now instead of on drop.
    pub fn erase(&mut self)
        ensures
            final(self)@ == zeros(old(self)@.len()),
    {
        wipe(self)
    }
}

/// A secret key of 32 bytes.
pub struct SecretKey {
    bytes: SecretBytes,
}

impl View for SecretKey {
    type V = Seq<u8>;

    closed spec fn view(&self) -> Seq<u8> {
        self.bytes@
    }
}

impl Clone for SecretKey {
    fn clone(&self) -> (copy: SecretKey)
        ensures
            copy@ == self@,
    {
        proof {
            use_type_invariant(self);
        }
        SecretKey { bytes: self.bytes.clone() }
    }
}

impl SecretKey {
    #[verifier::type_invariant]
    spec fn holds(self) -> bool {
        self.bytes@.len() == 32
    }

    pub fn new(key: [u8; 32]) -> (secret: SecretKey)
        ensures
            secret@ == key@,
    {
        SecretKey { bytes: SecretBytes::new(copy_bytes(key.as_slice())) }
    }

    /// The keyed digest of `input`.
    pub fn digest(&self, input: &[u8]) -> (hash: [u8; 32])
        ensures
            hash@ == primitives::blake3_keyed_digest(self@, input@),
    {
        proof {
            use_type_invariant(self);
        }
        keyed_digest(self.bytes.as_bytes(), input)
    }
}

} // verus!
