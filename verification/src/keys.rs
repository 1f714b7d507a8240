//! Key material: opaque byte containers, with distinct types for the public
//! and the private half so that one cannot stand where the other is meant.

use vstd::prelude::*;
use vstd::slice::slice_to_vec;

verus! {

/// A public key. It may be published and sent.
#[derive(Debug, PartialEq, Eq)]
pub struct PublicKey {
    pub pk: Vec<u8>,
}

/// A private key. It belongs to the identity that made it and is never sent
/// or logged, which is why it cannot be printed.
#[derive(PartialEq, Eq)]
pub struct PrivateKey {
    pub sk: Vec<u8>,
}

impl View for PublicKey {
    type V = Seq<u8>;

    open spec fn view(&self) -> Seq<u8> {
        self.pk@
    }
}

impl View for PrivateKey {
    type V = Seq<u8>;

    open spec fn view(&self) -> Seq<u8> {
        self.sk@
    }
}

impl Clone for PublicKey {
    fn clone(&self) -> (r: Self)
        ensures
            r@ == self@,
    {
        PublicKey { pk: slice_to_vec(self.pk.as_slice()) }
    }
}

impl Clone for PrivateKey {
    fn clone(&self) -> (r: Self)
        ensures
            r@ == self@,
    {
        PrivateKey { sk: slice_to_vec(self.sk.as_slice()) }
    }
}

/// How strong a generated symmetric key must be.
#[derive(Clone, Copy, Debug, PartialEq, Eq, Structural)]
pub enum KeyStrength {
    High,
    VeryHigh,
    ExtremelyHigh,
}

impl KeyStrength {
    /// The number of key bytes that the strength stands for.
    pub open spec fn spec_key_len(self) -> nat {
        match self {
            KeyStrength::High => 16,
            KeyStrength::VeryHigh => 24,
            KeyStrength::ExtremelyHigh => 32,
        }
    }

    /// The number of key bytes that the strength stands for.
    pub fn key_len(self) -> (n: usize)
        ensures
            n == self.spec_key_len(),
    {
        match self {
            KeyStrength::High => 16,
            KeyStrength::VeryHigh => 24,
            KeyStrength::ExtremelyHigh => 32,
        }
    }
}

/// Whether a symmetric cipher of the registry takes a key of `len` bytes.
pub open spec fn spec_is_key_len(len: nat) -> bool {
    len == 16 || len == 24 || len == 32
}

/// Whether a symmetric cipher of the registry takes a key of `len` bytes.
pub fn is_key_len(len: usize) -> (r: bool)
    ensures
        r == spec_is_key_len(len as nat),
{
    len == 16 || len == 24 || len == 32
}

} // verus!
