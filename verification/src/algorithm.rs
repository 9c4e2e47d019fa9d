//! Algorithms that a key can be asked to work with.

use crate::constant::Constant;
use vstd::prelude::*;

verus! {

/// A cryptographic algorithm for signing, verifying, encrypting, decrypting or
/// exchanging keys (the framework's `SecKeyAlgorithm`).
#[allow(non_camel_case_types)]
#[derive(Clone, Copy, Debug, PartialEq, Eq, Hash, Structural)]
pub enum KeyAlgorithm {
    /// ECIES encryption, standard variant: X9.63 key derivation, SHA-1, AES-GCM.
    ECIESEncryptionStandardX963SHA1AESGCM,
    /// ECIES encryption, standard variant: X9.63 key derivation, SHA-224, AES-GCM.
    ECIESEncryptionStandardX963SHA224AESGCM,
    /// ECIES encryption, standard variant: X9.63 key derivation, SHA-256, AES-GCM.
    ECIESEncryptionStandardX963SHA256AESGCM,
    /// ECIES encryption, standard variant: X9.63 key derivation, SHA-384, AES-GCM.
    ECIESEncryptionStandardX963SHA384AESGCM,
    /// ECIES encryption, standard variant: X9.63 key derivation, SHA-512, AES-GCM.
    ECIESEncryptionStandardX963SHA512AESGCM,
    /// ECIES encryption, standard variant with a variable IV: X9.63 key derivation, SHA-224, AES-
    /// GCM.
    ECIESEncryptionStandardVariableIVX963SHA224AESGCM,
    /// ECIES encryption, standard variant with a variable IV: X9.63 key derivation, SHA-256, AES-
    /// GCM.
    ECIESEncryptionStandardVariableIVX963SHA256AESGCM,
    /// ECIES encryption, standard variant with a variable IV: X9.63 key derivation, SHA-384, AES-
    /// GCM.
    ECIESEncryptionStandardVariableIVX963SHA384AESGCM,
    /// ECIES encryption, standard variant with a variable IV: X9.63 key derivation, SHA-512, AES-
    /// GCM.
    ECIESEncryptionStandardVariableIVX963SHA512AESGCM,
    /// ECIES encryption, cofactor variant with a variable IV: X9.63 key derivation, SHA-224, AES-
    /// GCM.
    ECIESEncryptionCofactorVariableIVX963SHA224AESGCM,
    /// ECIES encryption, cofactor variant with a variable IV: X9.63 key derivation, SHA-256, AES-
    /// GCM.
    ECIESEncryptionCofactorVariableIVX963SHA256AESGCM,
    /// ECIES encryption, cofactor variant with a variable IV: X9.63 key derivation, SHA-384, AES-
    /// GCM.
    ECIESEncryptionCofactorVariableIVX963SHA384AESGCM,
    /// ECIES encryption, cofactor variant with a variable IV: X9.63 key derivation, SHA-512, AES-
    /// GCM.
    ECIESEncryptionCofactorVariableIVX963SHA512AESGCM,
    /// ECIES encryption, cofactor variant: X9.63 key derivation, SHA-1, AES-GCM.
    ECIESEncryptionCofactorX963SHA1AESGCM,
    /// ECIES encryption, cofactor variant: X9.63 key derivation, SHA-224, AES-GCM.
    ECIESEncryptionCofactorX963SHA224AESGCM,
    /// ECIES encryption, cofactor variant: X9.63 key derivation, SHA-256, AES-GCM.
    ECIESEncryptionCofactorX963SHA256AESGCM,
    /// ECIES encryption, cofactor variant: X9.63 key derivation, SHA-384, AES-GCM.
    ECIESEncryptionCofactorX963SHA384AESGCM,
    /// ECIES encryption, cofactor variant: X9.63 key derivation, SHA-512, AES-GCM.
    ECIESEncryptionCofactorX963SHA512AESGCM,
    /// ECDSA signature in the RFC 4754 encoding.
    ECDSASignatureRFC4754,
    /// ECDSA signature over a digest, X9.62 encoding.
    ECDSASignatureDigestX962,
    /// ECDSA signature over a digest, X9.62 encoding: SHA-1.
    ECDSASignatureDigestX962SHA1,
    /// ECDSA signature over a digest, X9.62 encoding: SHA-224.
    ECDSASignatureDigestX962SHA224,
    /// ECDSA signature over a digest, X9.62 encoding: SHA-256.
    ECDSASignatureDigestX962SHA256,
    /// ECDSA signature over a digest, X9.62 encoding: SHA-384.
    ECDSASignatureDigestX962SHA384,
    /// ECDSA signature over a digest, X9.62 encoding: SHA-512.
    ECDSASignatureDigestX962SHA512,
    /// ECDSA signature over a message, X9.62 encoding: SHA-1.
    ECDSASignatureMessageX962SHA1,
    /// ECDSA signature over a message, X9.62 encoding: SHA-224.
    ECDSASignatureMessageX962SHA224,
    /// ECDSA signature over a message, X9.62 encoding: SHA-256.
    ECDSASignatureMessageX962SHA256,
    /// ECDSA signature over a message, X9.62 encoding: SHA-384.
    ECDSASignatureMessageX962SHA384,
    /// ECDSA signature over a message, X9.62 encoding: SHA-512.
    ECDSASignatureMessageX962SHA512,
    /// ECDH key exchange, cofactor variant.
    ECDHKeyExchangeCofactor,
    /// ECDH key exchange, standard variant.
    ECDHKeyExchangeStandard,
    /// ECDH key exchange, cofactor variant: X9.63 key derivation, SHA-1.
    ECDHKeyExchangeCofactorX963SHA1,
    /// ECDH key exchange, standard variant: X9.63 key derivation, SHA-1.
    ECDHKeyExchangeStandardX963SHA1,
    /// ECDH key exchange, cofactor variant: X9.63 key derivation, SHA-224.
    ECDHKeyExchangeCofactorX963SHA224,
    /// ECDH key exchange, cofactor variant: X9.63 key derivation, SHA-256.
    ECDHKeyExchangeCofactorX963SHA256,
    /// ECDH key exchange, cofactor variant: X9.63 key derivation, SHA-384.
    ECDHKeyExchangeCofactorX963SHA384,
    /// ECDH key exchange, cofactor variant: X9.63 key derivation, SHA-512.
    ECDHKeyExchangeCofactorX963SHA512,
    /// ECDH key exchange, standard variant: X9.63 key derivation, SHA-224.
    ECDHKeyExchangeStandardX963SHA224,
    /// ECDH key exchange, standard variant: X9.63 key derivation, SHA-256.
    ECDHKeyExchangeStandardX963SHA256,
    /// ECDH key exchange, standard variant: X9.63 key derivation, SHA-384.
    ECDHKeyExchangeStandardX963SHA384,
    /// ECDH key exchange, standard variant: X9.63 key derivation, SHA-512.
    ECDHKeyExchangeStandardX963SHA512,
    /// RSA encryption without padding.
    RSAEncryptionRaw,
    /// RSA encryption with PKCS#1 padding.
    RSAEncryptionPKCS1,
    /// RSA encryption with OAEP padding: SHA-1.
    RSAEncryptionOAEPSHA1,
    /// RSA encryption with OAEP padding: SHA-224.
    RSAEncryptionOAEPSHA224,
    /// RSA encryption with OAEP padding: SHA-256.
    RSAEncryptionOAEPSHA256,
    /// RSA encryption with OAEP padding: SHA-384.
    RSAEncryptionOAEPSHA384,
    /// RSA encryption with OAEP padding: SHA-512.
    RSAEncryptionOAEPSHA512,
    /// RSA encryption with OAEP padding: SHA-1, AES-GCM.
    RSAEncryptionOAEPSHA1AESGCM,
    /// RSA encryption with OAEP padding: SHA-224, AES-GCM.
    RSAEncryptionOAEPSHA224AESGCM,
    /// RSA encryption with OAEP padding: SHA-256, AES-GCM.
    RSAEncryptionOAEPSHA256AESGCM,
    /// RSA encryption with OAEP padding: SHA-384, AES-GCM.
    RSAEncryptionOAEPSHA384AESGCM,
    /// RSA encryption with OAEP padding: SHA-512, AES-GCM.
    RSAEncryptionOAEPSHA512AESGCM,
    /// RSA signature without padding.
    RSASignatureRaw,
    /// RSA signature over a digest, PKCS#1 v1.5: raw digest.
    RSASignatureDigestPKCS1v15Raw,
    /// RSA signature over a digest, PKCS#1 v1.5: SHA-1.
    RSASignatureDigestPKCS1v15SHA1,
    /// RSA signature over a digest, PKCS#1 v1.5: SHA-224.
    RSASignatureDigestPKCS1v15SHA224,
    /// RSA signature over a digest, PKCS#1 v1.5: SHA-256.
    RSASignatureDigestPKCS1v15SHA256,
    /// RSA signature over a digest, PKCS#1 v1.5: SHA-384.
    RSASignatureDigestPKCS1v15SHA384,
    /// RSA signature over a digest, PKCS#1 v1.5: SHA-512.
    RSASignatureDigestPKCS1v15SHA512,
    /// RSA signature over a message, PKCS#1 v1.5: SHA-1.
    RSASignatureMessagePKCS1v15SHA1,
    /// RSA signature over a message, PKCS#1 v1.5: SHA-224.
    RSASignatureMessagePKCS1v15SHA224,
    /// RSA signature over a message, PKCS#1 v1.5: SHA-256.
    RSASignatureMessagePKCS1v15SHA256,
    /// RSA signature over a message, PKCS#1 v1.5: SHA-384.
    RSASignatureMessagePKCS1v15SHA384,
    /// RSA signature over a message, PKCS#1 v1.5: SHA-512.
    RSASignatureMessagePKCS1v15SHA512,
    /// RSA signature over a digest, PSS: SHA-1.
    RSASignatureDigestPSSSHA1,
    /// RSA signature over a digest, PSS: SHA-224.
    RSASignatureDigestPSSSHA224,
    /// RSA signature over a digest, PSS: SHA-256.
    RSASignatureDigestPSSSHA256,
    /// RSA signature over a digest, PSS: SHA-384.
    RSASignatureDigestPSSSHA384,
    /// RSA signature over a digest, PSS: SHA-512.
    RSASignatureDigestPSSSHA512,
    /// RSA signature over a message, PSS: SHA-1.
    RSASignatureMessagePSSSHA1,
    /// RSA signature over a message, PSS: SHA-224.
    RSASignatureMessagePSSSHA224,
    /// RSA signature over a message, PSS: SHA-256.
    RSASignatureMessagePSSSHA256,
    /// RSA signature over a message, PSS: SHA-384.
    RSASignatureMessagePSSSHA384,
    /// RSA signature over a message, PSS: SHA-512.
    RSASignatureMessagePSSSHA512,
}

/// The older name of [`KeyAlgorithm`].
pub type SecKeyAlgorithm = KeyAlgorithm;

impl KeyAlgorithm {
    /// The framework constant that stands for this algorithm.
    pub open spec fn constant(self) -> Constant {
        match self {
            KeyAlgorithm::ECIESEncryptionStandardX963SHA1AESGCM => {
                Constant::KeyAlgorithmECIESEncryptionStandardX963SHA1AESGCM
            },
            KeyAlgorithm::ECIESEncryptionStandardX963SHA224AESGCM => {
                Constant::KeyAlgorithmECIESEncryptionStandardX963SHA224AESGCM
            },
            KeyAlgorithm::ECIESEncryptionStandardX963SHA256AESGCM => {
                Constant::KeyAlgorithmECIESEncryptionStandardX963SHA256AESGCM
            },
            KeyAlgorithm::ECIESEncryptionStandardX963SHA384AESGCM => {
                Constant::KeyAlgorithmECIESEncryptionStandardX963SHA384AESGCM
            },
            KeyAlgorithm::ECIESEncryptionStandardX963SHA512AESGCM => {
                Constant::KeyAlgorithmECIESEncryptionStandardX963SHA512AESGCM
            },
            KeyAlgorithm::ECIESEncryptionStandardVariableIVX963SHA224AESGCM => {
                Constant::KeyAlgorithmECIESEncryptionStandardVariableIVX963SHA224AESGCM
            },
            KeyAlgorithm::ECIESEncryptionStandardVariableIVX963SHA256AESGCM => {
                Constant::KeyAlgorithmECIESEncryptionStandardVariableIVX963SHA256AESGCM
            },
            KeyAlgorithm::ECIESEncryptionStandardVariableIVX963SHA384AESGCM => {
                Constant::KeyAlgorithmECIESEncryptionStandardVariableIVX963SHA384AESGCM
            },
            KeyAlgorithm::ECIESEncryptionStandardVariableIVX963SHA512AESGCM => {
                Constant::KeyAlgorithmECIESEncryptionStandardVariableIVX963SHA512AESGCM
            },
            KeyAlgorithm::ECIESEncryptionCofactorVariableIVX963SHA224AESGCM => {
                Constant::KeyAlgorithmECIESEncryptionCofactorVariableIVX963SHA224AESGCM
            },
            KeyAlgorithm::ECIESEncryptionCofactorVariableIVX963SHA256AESGCM => {
                Constant::KeyAlgorithmECIESEncryptionCofactorVariableIVX963SHA256AESGCM
            },
            KeyAlgorithm::ECIESEncryptionCofactorVariableIVX963SHA384AESGCM => {
                Constant::KeyAlgorithmECIESEncryptionCofactorVariableIVX963SHA384AESGCM
            },
            KeyAlgorithm::ECIESEncryptionCofactorVariableIVX963SHA512AESGCM => {
                Constant::KeyAlgorithmECIESEncryptionCofactorVariableIVX963SHA512AESGCM
            },
            KeyAlgorithm::ECIESEncryptionCofactorX963SHA1AESGCM => {
                Constant::KeyAlgorithmECIESEncryptionCofactorX963SHA1AESGCM
            },
            KeyAlgorithm::ECIESEncryptionCofactorX963SHA224AESGCM => {
                Constant::KeyAlgorithmECIESEncryptionCofactorX963SHA224AESGCM
            },
            KeyAlgorithm::ECIESEncryptionCofactorX963SHA256AESGCM => {
                Constant::KeyAlgorithmECIESEncryptionCofactorX963SHA256AESGCM
            },
            KeyAlgorithm::ECIESEncryptionCofactorX963SHA384AESGCM => {
                Constant::KeyAlgorithmECIESEncryptionCofactorX963SHA384AESGCM
            },
            KeyAlgorithm::ECIESEncryptionCofactorX963SHA512AESGCM => {
                Constant::KeyAlgorithmECIESEncryptionCofactorX963SHA512AESGCM
            },
            KeyAlgorithm::ECDSASignatureRFC4754 => Constant::KeyAlgorithmECDSASignatureRFC4754,
            KeyAlgorithm::ECDSASignatureDigestX962 => {
                Constant::KeyAlgorithmECDSASignatureDigestX962
            },
            KeyAlgorithm::ECDSASignatureDigestX962SHA1 => {
                Constant::KeyAlgorithmECDSASignatureDigestX962SHA1
            },
            KeyAlgorithm::ECDSASignatureDigestX962SHA224 => {
                Constant::KeyAlgorithmECDSASignatureDigestX962SHA224
            },
            KeyAlgorithm::ECDSASignatureDigestX962SHA256 => {
                Constant::KeyAlgorithmECDSASignatureDigestX962SHA256
            },
            KeyAlgorithm::ECDSASignatureDigestX962SHA384 => {
                Constant::KeyAlgorithmECDSASignatureDigestX962SHA384
            },
            KeyAlgorithm::ECDSASignatureDigestX962SHA512 => {
                Constant::KeyAlgorithmECDSASignatureDigestX962SHA512
            },
            KeyAlgorithm::ECDSASignatureMessageX962SHA1 => {
                Constant::KeyAlgorithmECDSASignatureMessageX962SHA1
            },
            KeyAlgorithm::ECDSASignatureMessageX962SHA224 => {
                Constant::KeyAlgorithmECDSASignatureMessageX962SHA224
            },
            KeyAlgorithm::ECDSASignatureMessageX962SHA256 => {
                Constant::KeyAlgorithmECDSASignatureMessageX962SHA256
            },
            KeyAlgorithm::ECDSASignatureMessageX962SHA384 => {
                Constant::KeyAlgorithmECDSASignatureMessageX962SHA384
            },
            KeyAlgorithm::ECDSASignatureMessageX962SHA512 => {
                Constant::KeyAlgorithmECDSASignatureMessageX962SHA512
            },
            KeyAlgorithm::ECDHKeyExchangeCofactor => Constant::KeyAlgorithmECDHKeyExchangeCofactor,
            KeyAlgorithm::ECDHKeyExchangeStandard => Constant::KeyAlgorithmECDHKeyExchangeStandard,
            KeyAlgorithm::ECDHKeyExchangeCofactorX963SHA1 => {
                Constant::KeyAlgorithmECDHKeyExchangeCofactorX963SHA1
            },
            KeyAlgorithm::ECDHKeyExchangeStandardX963SHA1 => {
                Constant::KeyAlgorithmECDHKeyExchangeStandardX963SHA1
            },
            KeyAlgorithm::ECDHKeyExchangeCofactorX963SHA224 => {
                Constant::KeyAlgorithmECDHKeyExchangeCofactorX963SHA224
            },
            KeyAlgorithm::ECDHKeyExchangeCofactorX963SHA256 => {
                Constant::KeyAlgorithmECDHKeyExchangeCofactorX963SHA256
            },
            KeyAlgorithm::ECDHKeyExchangeCofactorX963SHA384 => {
                Constant::KeyAlgorithmECDHKeyExchangeCofactorX963SHA384
            },
            KeyAlgorithm::ECDHKeyExchangeCofactorX963SHA512 => {
                Constant::KeyAlgorithmECDHKeyExchangeCofactorX963SHA512
            },
            KeyAlgorithm::ECDHKeyExchangeStandardX963SHA224 => {
                Constant::KeyAlgorithmECDHKeyExchangeStandardX963SHA224
            },
            KeyAlgorithm::ECDHKeyExchangeStandardX963SHA256 => {
                Constant::KeyAlgorithmECDHKeyExchangeStandardX963SHA256
            },
            KeyAlgorithm::ECDHKeyExchangeStandardX963SHA384 => {
                Constant::KeyAlgorithmECDHKeyExchangeStandardX963SHA384
            },
            KeyAlgorithm::ECDHKeyExchangeStandardX963SHA512 => {
                Constant::KeyAlgorithmECDHKeyExchangeStandardX963SHA512
            },
            KeyAlgorithm::RSAEncryptionRaw => Constant::KeyAlgorithmRSAEncryptionRaw,
            KeyAlgorithm::RSAEncryptionPKCS1 => Constant::KeyAlgorithmRSAEncryptionPKCS1,
            KeyAlgorithm::RSAEncryptionOAEPSHA1 => Constant::KeyAlgorithmRSAEncryptionOAEPSHA1,
            KeyAlgorithm::RSAEncryptionOAEPSHA224 => Constant::KeyAlgorithmRSAEncryptionOAEPSHA224,
            KeyAlgorithm::RSAEncryptionOAEPSHA256 => Constant::KeyAlgorithmRSAEncryptionOAEPSHA256,
            KeyAlgorithm::RSAEncryptionOAEPSHA384 => Constant::KeyAlgorithmRSAEncryptionOAEPSHA384,
            KeyAlgorithm::RSAEncryptionOAEPSHA512 => Constant::KeyAlgorithmRSAEncryptionOAEPSHA512,
            KeyAlgorithm::RSAEncryptionOAEPSHA1AESGCM => {
                Constant::KeyAlgorithmRSAEncryptionOAEPSHA1AESGCM
            },
            KeyAlgorithm::RSAEncryptionOAEPSHA224AESGCM => {
                Constant::KeyAlgorithmRSAEncryptionOAEPSHA224AESGCM
            },
            KeyAlgorithm::RSAEncryptionOAEPSHA256AESGCM => {
                Constant::KeyAlgorithmRSAEncryptionOAEPSHA256AESGCM
            },
            KeyAlgorithm::RSAEncryptionOAEPSHA384AESGCM => {
                Constant::KeyAlgorithmRSAEncryptionOAEPSHA384AESGCM
            },
            KeyAlgorithm::RSAEncryptionOAEPSHA512AESGCM => {
                Constant::KeyAlgorithmRSAEncryptionOAEPSHA512AESGCM
            },
            KeyAlgorithm::RSASignatureRaw => Constant::KeyAlgorithmRSASignatureRaw,
            KeyAlgorithm::RSASignatureDigestPKCS1v15Raw => {
                Constant::KeyAlgorithmRSASignatureDigestPKCS1v15Raw
            },
            KeyAlgorithm::RSASignatureDigestPKCS1v15SHA1 => {
                Constant::KeyAlgorithmRSASignatureDigestPKCS1v15SHA1
            },
            KeyAlgorithm::RSASignatureDigestPKCS1v15SHA224 => {
                Constant::KeyAlgorithmRSASignatureDigestPKCS1v15SHA224
            },
            KeyAlgorithm::RSASignatureDigestPKCS1v15SHA256 => {
                Constant::KeyAlgorithmRSASignatureDigestPKCS1v15SHA256
            },
            KeyAlgorithm::RSASignatureDigestPKCS1v15SHA384 => {
                Constant::KeyAlgorithmRSASignatureDigestPKCS1v15SHA384
            },
            KeyAlgorithm::RSASignatureDigestPKCS1v15SHA512 => {
                Constant::KeyAlgorithmRSASignatureDigestPKCS1v15SHA512
            },
            KeyAlgorithm::RSASignatureMessagePKCS1v15SHA1 => {
                Constant::KeyAlgorithmRSASignatureMessagePKCS1v15SHA1
            },
            KeyAlgorithm::RSASignatureMessagePKCS1v15SHA224 => {
                Constant::KeyAlgorithmRSASignatureMessagePKCS1v15SHA224
            },
            KeyAlgorithm::RSASignatureMessagePKCS1v15SHA256 => {
                Constant::KeyAlgorithmRSASignatureMessagePKCS1v15SHA256
            },
            KeyAlgorithm::RSASignatureMessagePKCS1v15SHA384 => {
                Constant::KeyAlgorithmRSASignatureMessagePKCS1v15SHA384
            },
            KeyAlgorithm::RSASignatureMessagePKCS1v15SHA512 => {
                Constant::KeyAlgorithmRSASignatureMessagePKCS1v15SHA512
            },
            KeyAlgorithm::RSASignatureDigestPSSSHA1 => {
                Constant::KeyAlgorithmRSASignatureDigestPSSSHA1
            },
            KeyAlgorithm::RSASignatureDigestPSSSHA224 => {
                Constant::KeyAlgorithmRSASignatureDigestPSSSHA224
            },
            KeyAlgorithm::RSASignatureDigestPSSSHA256 => {
                Constant::KeyAlgorithmRSASignatureDigestPSSSHA256
            },
            KeyAlgorithm::RSASignatureDigestPSSSHA384 => {
                Constant::KeyAlgorithmRSASignatureDigestPSSSHA384
            },
            KeyAlgorithm::RSASignatureDigestPSSSHA512 => {
                Constant::KeyAlgorithmRSASignatureDigestPSSSHA512
            },
            KeyAlgorithm::RSASignatureMessagePSSSHA1 => {
                Constant::KeyAlgorithmRSASignatureMessagePSSSHA1
            },
            KeyAlgorithm::RSASignatureMessagePSSSHA224 => {
                Constant::KeyAlgorithmRSASignatureMessagePSSSHA224
            },
            KeyAlgorithm::RSASignatureMessagePSSSHA256 => {
                Constant::KeyAlgorithmRSASignatureMessagePSSSHA256
            },
            KeyAlgorithm::RSASignatureMessagePSSSHA384 => {
                Constant::KeyAlgorithmRSASignatureMessagePSSSHA384
            },
            KeyAlgorithm::RSASignatureMessagePSSSHA512 => {
                Constant::KeyAlgorithmRSASignatureMessagePSSSHA512
            },
        }
    }

    /// Gives the framework constant to hand over where this algorithm is meant.
    #[allow(non_snake_case)]
    pub fn as_CFString(self) -> (r: Constant)
        ensures
            r == self.constant(),
    {
        match self {
            KeyAlgorithm::ECIESEncryptionStandardX963SHA1AESGCM => {
                Constant::KeyAlgorithmECIESEncryptionStandardX963SHA1AESGCM
            },
            KeyAlgorithm::ECIESEncryptionStandardX963SHA224AESGCM => {
                Constant::KeyAlgorithmECIESEncryptionStandardX963SHA224AESGCM
            },
            KeyAlgorithm::ECIESEncryptionStandardX963SHA256AESGCM => {
                Constant::KeyAlgorithmECIESEncryptionStandardX963SHA256AESGCM
            },
            KeyAlgorithm::ECIESEncryptionStandardX963SHA384AESGCM => {
                Constant::KeyAlgorithmECIESEncryptionStandardX963SHA384AESGCM
            },
            KeyAlgorithm::ECIESEncryptionStandardX963SHA512AESGCM => {
                Constant::KeyAlgorithmECIESEncryptionStandardX963SHA512AESGCM
            },
            KeyAlgorithm::ECIESEncryptionStandardVariableIVX963SHA224AESGCM => {
                Constant::KeyAlgorithmECIESEncryptionStandardVariableIVX963SHA224AESGCM
            },
            KeyAlgorithm::ECIESEncryptionStandardVariableIVX963SHA256AESGCM => {
                Constant::KeyAlgorithmECIESEncryptionStandardVariableIVX963SHA256AESGCM
            },
            KeyAlgorithm::ECIESEncryptionStandardVariableIVX963SHA384AESGCM => {
                Constant::KeyAlgorithmECIESEncryptionStandardVariableIVX963SHA384AESGCM
            },
            KeyAlgorithm::ECIESEncryptionStandardVariableIVX963SHA512AESGCM => {
                Constant::KeyAlgorithmECIESEncryptionStandardVariableIVX963SHA512AESGCM
            },
            KeyAlgorithm::ECIESEncryptionCofactorVariableIVX963SHA224AESGCM => {
                Constant::KeyAlgorithmECIESEncryptionCofactorVariableIVX963SHA224AESGCM
            },
            KeyAlgorithm::ECIESEncryptionCofactorVariableIVX963SHA256AESGCM => {
                Constant::KeyAlgorithmECIESEncryptionCofactorVariableIVX963SHA256AESGCM
            },
            KeyAlgorithm::ECIESEncryptionCofactorVariableIVX963SHA384AESGCM => {
                Constant::KeyAlgorithmECIESEncryptionCofactorVariableIVX963SHA384AESGCM
            },
            KeyAlgorithm::ECIESEncryptionCofactorVariableIVX963SHA512AESGCM => {
                Constant::KeyAlgorithmECIESEncryptionCofactorVariableIVX963SHA512AESGCM
            },
            KeyAlgorithm::ECIESEncryptionCofactorX963SHA1AESGCM => {
                Constant::KeyAlgorithmECIESEncryptionCofactorX963SHA1AESGCM
            },
            KeyAlgorithm::ECIESEncryptionCofactorX963SHA224AESGCM => {
                Constant::KeyAlgorithmECIESEncryptionCofactorX963SHA224AESGCM
            },
            KeyAlgorithm::ECIESEncryptionCofactorX963SHA256AESGCM => {
                Constant::KeyAlgorithmECIESEncryptionCofactorX963SHA256AESGCM
            },
            KeyAlgorithm::ECIESEncryptionCofactorX963SHA384AESGCM => {
                Constant::KeyAlgorithmECIESEncryptionCofactorX963SHA384AESGCM
            },
            KeyAlgorithm::ECIESEncryptionCofactorX963SHA512AESGCM => {
                Constant::KeyAlgorithmECIESEncryptionCofactorX963SHA512AESGCM
            },
            KeyAlgorithm::ECDSASignatureRFC4754 => Constant::KeyAlgorithmECDSASignatureRFC4754,
            KeyAlgorithm::ECDSASignatureDigestX962 => {
                Constant::KeyAlgorithmECDSASignatureDigestX962
            },
            KeyAlgorithm::ECDSASignatureDigestX962SHA1 => {
                Constant::KeyAlgorithmECDSASignatureDigestX962SHA1
            },
            KeyAlgorithm::ECDSASignatureDigestX962SHA224 => {
                Constant::KeyAlgorithmECDSASignatureDigestX962SHA224
            },
            KeyAlgorithm::ECDSASignatureDigestX962SHA256 => {
                Constant::KeyAlgorithmECDSASignatureDigestX962SHA256
            },
            KeyAlgorithm::ECDSASignatureDigestX962SHA384 => {
                Constant::KeyAlgorithmECDSASignatureDigestX962SHA384
            },
            KeyAlgorithm::ECDSASignatureDigestX962SHA512 => {
                Constant::KeyAlgorithmECDSASignatureDigestX962SHA512
            },
            KeyAlgorithm::ECDSASignatureMessageX962SHA1 => {
                Constant::KeyAlgorithmECDSASignatureMessageX962SHA1
            },
            KeyAlgorithm::ECDSASignatureMessageX962SHA224 => {
                Constant::KeyAlgorithmECDSASignatureMessageX962SHA224
            },
            KeyAlgorithm::ECDSASignatureMessageX962SHA256 => {
                Constant::KeyAlgorithmECDSASignatureMessageX962SHA256
            },
            KeyAlgorithm::ECDSASignatureMessageX962SHA384 => {
                Constant::KeyAlgorithmECDSASignatureMessageX962SHA384
            },
            KeyAlgorithm::ECDSASignatureMessageX962SHA512 => {
                Constant::KeyAlgorithmECDSASignatureMessageX962SHA512
            },
            KeyAlgorithm::ECDHKeyExchangeCofactor => Constant::KeyAlgorithmECDHKeyExchangeCofactor,
            KeyAlgorithm::ECDHKeyExchangeStandard => Constant::KeyAlgorithmECDHKeyExchangeStandard,
            KeyAlgorithm::ECDHKeyExchangeCofactorX963SHA1 => {
                Constant::KeyAlgorithmECDHKeyExchangeCofactorX963SHA1
            },
            KeyAlgorithm::ECDHKeyExchangeStandardX963SHA1 => {
                Constant::KeyAlgorithmECDHKeyExchangeStandardX963SHA1
            },
            KeyAlgorithm::ECDHKeyExchangeCofactorX963SHA224 => {
                Constant::KeyAlgorithmECDHKeyExchangeCofactorX963SHA224
            },
            KeyAlgorithm::ECDHKeyExchangeCofactorX963SHA256 => {
                Constant::KeyAlgorithmECDHKeyExchangeCofactorX963SHA256
            },
            KeyAlgorithm::ECDHKeyExchangeCofactorX963SHA384 => {
                Constant::KeyAlgorithmECDHKeyExchangeCofactorX963SHA384
            },
            KeyAlgorithm::ECDHKeyExchangeCofactorX963SHA512 => {
                Constant::KeyAlgorithmECDHKeyExchangeCofactorX963SHA512
            },
            KeyAlgorithm::ECDHKeyExchangeStandardX963SHA224 => {
                Constant::KeyAlgorithmECDHKeyExchangeStandardX963SHA224
            },
            KeyAlgorithm::ECDHKeyExchangeStandardX963SHA256 => {
                Constant::KeyAlgorithmECDHKeyExchangeStandardX963SHA256
            },
            KeyAlgorithm::ECDHKeyExchangeStandardX963SHA384 => {
                Constant::KeyAlgorithmECDHKeyExchangeStandardX963SHA384
            },
            KeyAlgorithm::ECDHKeyExchangeStandardX963SHA512 => {
                Constant::KeyAlgorithmECDHKeyExchangeStandardX963SHA512
            },
            KeyAlgorithm::RSAEncryptionRaw => Constant::KeyAlgorithmRSAEncryptionRaw,
            KeyAlgorithm::RSAEncryptionPKCS1 => Constant::KeyAlgorithmRSAEncryptionPKCS1,
            KeyAlgorithm::RSAEncryptionOAEPSHA1 => Constant::KeyAlgorithmRSAEncryptionOAEPSHA1,
            KeyAlgorithm::RSAEncryptionOAEPSHA224 => Constant::KeyAlgorithmRSAEncryptionOAEPSHA224,
            KeyAlgorithm::RSAEncryptionOAEPSHA256 => Constant::KeyAlgorithmRSAEncryptionOAEPSHA256,
            KeyAlgorithm::RSAEncryptionOAEPSHA384 => Constant::KeyAlgorithmRSAEncryptionOAEPSHA384,
            KeyAlgorithm::RSAEncryptionOAEPSHA512 => Constant::KeyAlgorithmRSAEncryptionOAEPSHA512,
            KeyAlgorithm::RSAEncryptionOAEPSHA1AESGCM => {
                Constant::KeyAlgorithmRSAEncryptionOAEPSHA1AESGCM
            },
            KeyAlgorithm::RSAEncryptionOAEPSHA224AESGCM => {
                Constant::KeyAlgorithmRSAEncryptionOAEPSHA224AESGCM
            },
            KeyAlgorithm::RSAEncryptionOAEPSHA256AESGCM => {
                Constant::KeyAlgorithmRSAEncryptionOAEPSHA256AESGCM
            },
            KeyAlgorithm::RSAEncryptionOAEPSHA384AESGCM => {
                Constant::KeyAlgorithmRSAEncryptionOAEPSHA384AESGCM
            },
            KeyAlgorithm::RSAEncryptionOAEPSHA512AESGCM => {
                Constant::KeyAlgorithmRSAEncryptionOAEPSHA512AESGCM
            },
            KeyAlgorithm::RSASignatureRaw => Constant::KeyAlgorithmRSASignatureRaw,
            KeyAlgorithm::RSASignatureDigestPKCS1v15Raw => {
                Constant::KeyAlgorithmRSASignatureDigestPKCS1v15Raw
            },
            KeyAlgorithm::RSASignatureDigestPKCS1v15SHA1 => {
                Constant::KeyAlgorithmRSASignatureDigestPKCS1v15SHA1
            },
            KeyAlgorithm::RSASignatureDigestPKCS1v15SHA224 => {
                Constant::KeyAlgorithmRSASignatureDigestPKCS1v15SHA224
            },
            KeyAlgorithm::RSASignatureDigestPKCS1v15SHA256 => {
                Constant::KeyAlgorithmRSASignatureDigestPKCS1v15SHA256
            },
            KeyAlgorithm::RSASignatureDigestPKCS1v15SHA384 => {
                Constant::KeyAlgorithmRSASignatureDigestPKCS1v15SHA384
            },
            KeyAlgorithm::RSASignatureDigestPKCS1v15SHA512 => {
                Constant::KeyAlgorithmRSASignatureDigestPKCS1v15SHA512
            },
            KeyAlgorithm::RSASignatureMessagePKCS1v15SHA1 => {
                Constant::KeyAlgorithmRSASignatureMessagePKCS1v15SHA1
            },
            KeyAlgorithm::RSASignatureMessagePKCS1v15SHA224 => {
                Constant::KeyAlgorithmRSASignatureMessagePKCS1v15SHA224
            },
            KeyAlgorithm::RSASignatureMessagePKCS1v15SHA256 => {
                Constant::KeyAlgorithmRSASignatureMessagePKCS1v15SHA256
            },
            KeyAlgorithm::RSASignatureMessagePKCS1v15SHA384 => {
                Constant::KeyAlgorithmRSASignatureMessagePKCS1v15SHA384
            },
            KeyAlgorithm::RSASignatureMessagePKCS1v15SHA512 => {
                Constant::KeyAlgorithmRSASignatureMessagePKCS1v15SHA512
            },
            KeyAlgorithm::RSASignatureDigestPSSSHA1 => {
                Constant::KeyAlgorithmRSASignatureDigestPSSSHA1
            },
            KeyAlgorithm::RSASignatureDigestPSSSHA224 => {
                Constant::KeyAlgorithmRSASignatureDigestPSSSHA224
            },
            KeyAlgorithm::RSASignatureDigestPSSSHA256 => {
                Constant::KeyAlgorithmRSASignatureDigestPSSSHA256
            },
            KeyAlgorithm::RSASignatureDigestPSSSHA384 => {
                Constant::KeyAlgorithmRSASignatureDigestPSSSHA384
            },
            KeyAlgorithm::RSASignatureDigestPSSSHA512 => {
                Constant::KeyAlgorithmRSASignatureDigestPSSSHA512
            },
            KeyAlgorithm::RSASignatureMessagePSSSHA1 => {
                Constant::KeyAlgorithmRSASignatureMessagePSSSHA1
            },
            KeyAlgorithm::RSASignatureMessagePSSSHA224 => {
                Constant::KeyAlgorithmRSASignatureMessagePSSSHA224
            },
            KeyAlgorithm::RSASignatureMessagePSSSHA256 => {
                Constant::KeyAlgorithmRSASignatureMessagePSSSHA256
            },
            KeyAlgorithm::RSASignatureMessagePSSSHA384 => {
                Constant::KeyAlgorithmRSASignatureMessagePSSSHA384
            },
            KeyAlgorithm::RSASignatureMessagePSSSHA512 => {
                Constant::KeyAlgorithmRSASignatureMessagePSSSHA512
            },
        }
    }

    /// No two algorithms share a framework constant.
    pub proof fn lemma_constant_injective(a: KeyAlgorithm, b: KeyAlgorithm)
        requires
            a.constant() == b.constant(),
        ensures
            a == b,
    {
    }
}

} // verus!
