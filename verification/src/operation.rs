//! The operations that a key can be asked whether it supports.

use vstd::prelude::*;

verus! {

/// An operation of a cryptographic key (the framework's `SecKeyOperationType`).
#[derive(Clone, Copy, Debug, PartialEq, Eq, Hash, Structural)]
pub enum KeyOperation {
    /// Decrypting.
    Decrypt,
    /// Encrypting.
    Encrypt,
    /// Exchanging keys.
    KeyExchange,
    /// Signing.
    Sign,
    /// Verifying a signature.
    Verify,
}

impl KeyOperation {
    /// The number by which the framework knows this operation.
    pub open spec fn index(self) -> isize {
        match self {
            KeyOperation::Sign => 0,
            KeyOperation::Verify => 1,
            KeyOperation::Encrypt => 2,
            KeyOperation::Decrypt => 3,
            KeyOperation::KeyExchange => 4,
        }
    }

    /// Gives the number by which the framework knows this operation.
    #[allow(non_snake_case)]
    pub fn to_CFIndex(self) -> (r: isize)
        ensures
            r == self.index(),
    {
        match self {
            KeyOperation::Decrypt => 3,
            KeyOperation::Encrypt => 2,
            KeyOperation::KeyExchange => 4,
            KeyOperation::Sign => 0,
            KeyOperation::Verify => 1,
        }
    }

    /// No two operations share a number.
    pub proof fn lemma_index_injective(a: KeyOperation, b: KeyOperation)
        requires
            a.index() == b.index(),
        ensures
            a == b,
    {
    }
}

} // verus!
