//! Ciphertexts that keys of the keychain made.

use crate::algorithm::KeyAlgorithm;
use vstd::prelude::*;
use vstd::slice::slice_to_vec;
use vstd::std_specs::convert::FromSpecImpl;

verus! {

/// An encrypted message: its bytes, and the algorithm that made it. The key
/// that made it is not kept; the algorithm is, because decrypting needs it.
#[derive(Clone, Debug)]
pub struct Ciphertext {
    alg: KeyAlgorithm,
    bytes: Vec<u8>,
}

impl View for Ciphertext {
    type V = (KeyAlgorithm, Seq<u8>);

    closed spec fn view(&self) -> (KeyAlgorithm, Seq<u8>) {
        (self.alg, self.bytes@)
    }
}

impl Ciphertext {
    /// A ciphertext of the given bytes, made with the given algorithm.
    pub fn new(alg: KeyAlgorithm, bytes: Vec<u8>) -> (r: Ciphertext)
        ensures
            r@ == (alg, bytes@),
    {
        Ciphertext { alg, bytes }
    }

    /// The algorithm that made this ciphertext.
    pub fn algorithm(&self) -> (r: KeyAlgorithm)
        ensures
            r == self@.0,
    {
        self.alg
    }

    /// The bytes of the ciphertext.
    pub fn as_bytes(&self) -> (r: &[u8])
        ensures
            r@ == self@.1,
    {
        self.bytes.as_slice()
    }

    /// The bytes of the ciphertext, as a vector of their own.
    pub fn to_vec(&self) -> (r: Vec<u8>)
        ensures
            r@ == self@.1,
    {
        slice_to_vec(self.bytes.as_slice())
    }

    /// The ciphertext turned into its bytes.
    pub fn into_vec(self) -> (r: Vec<u8>)
        ensures
            r@ == self@.1,
    {
        self.bytes
    }
}

impl AsRef<[u8]> for Ciphertext {
    fn as_ref(&self) -> (r: &[u8])
        ensures
            r@ == self@.1,
    {
        self.as_bytes()
    }
}

impl From<Ciphertext> for Vec<u8> {
    fn from(ciphertext: Ciphertext) -> (r: Vec<u8>)
        ensures
            r@ == ciphertext@.1,
    {
        ciphertext.bytes
    }
}

impl FromSpecImpl<Ciphertext> for Vec<u8> {
    open spec fn obeys_from_spec() -> bool {
        true
    }

    closed spec fn from_spec(ciphertext: Ciphertext) -> Vec<u8> {
        ciphertext.bytes
    }
}

} // verus!
