//! Signatures that keys of the keychain made.

use crate::algorithm::KeyAlgorithm;
use vstd::prelude::*;
use vstd::slice::slice_to_vec;
use vstd::std_specs::convert::FromSpecImpl;

verus! {

/// A cryptographic signature: its bytes, and the algorithm that made it. The key
/// that made it is not kept; the algorithm is, because verifying needs it.
#[derive(Clone, Debug)]
pub struct Signature {
    alg: KeyAlgorithm,
    bytes: Vec<u8>,
}

impl View for Signature {
    type V = (KeyAlgorithm, Seq<u8>);

    closed spec fn view(&self) -> (KeyAlgorithm, Seq<u8>) {
        (self.alg, self.bytes@)
    }
}

impl Signature {
    /// A signature of the given bytes, made with the given algorithm.
    pub fn new(alg: KeyAlgorithm, bytes: Vec<u8>) -> (r: Signature)
        ensures
            r@ == (alg, bytes@),
    {
        Signature { alg, bytes }
    }

    /// The algorithm that made this signature.
    pub fn algorithm(&self) -> (r: KeyAlgorithm)
        ensures
            r == self@.0,
    {
        self.alg
    }

    /// The bytes of the signature.
    pub fn as_bytes(&self) -> (r: &[u8])
        ensures
            r@ == self@.1,
    {
        self.bytes.as_slice()
    }

    /// The bytes of the signature, as a vector of their own.
    pub fn to_vec(&self) -> (r: Vec<u8>)
        ensures
            r@ == self@.1,
    {
        slice_to_vec(self.bytes.as_slice())
    }

    /// The signature turned into its bytes.
    pub fn into_vec(self) -> (r: Vec<u8>)
        ensures
            r@ == self@.1,
    {
        self.bytes
    }
}

impl AsRef<[u8]> for Signature {
    fn as_ref(&self) -> (r: &[u8])
        ensures
            r@ == self@.1,
    {
        self.as_bytes()
    }
}

impl From<Signature> for Vec<u8> {
    fn from(signature: Signature) -> (r: Vec<u8>)
        ensures
            r@ == signature@.1,
    {
        signature.bytes
    }
}

impl FromSpecImpl<Signature> for Vec<u8> {
    open spec fn obeys_from_spec() -> bool {
        true
    }

    closed spec fn from_spec(signature: Signature) -> Vec<u8> {
        signature.bytes
    }
}

} // verus!
