//! The constants that the security framework exports by name.
//!
//! Attribute keys, enumerated attribute values, item classes and algorithm identifiers
//! all reach the framework as symbols of this one table. The typed enumerations of the
//! other modules map into it; nothing in the library hands the framework a raw string
//! or integer where a symbol is expected.

use vstd::prelude::*;

verus! {

/// A constant of the security framework, named after the symbol that exports it
/// (the symbol is the variant's name behind the prefix `kSec`).
#[derive(Clone, Copy, Debug, PartialEq, Eq, Hash, Structural)]
pub enum Constant {
    // Attribute keys.
    /// `kSecAttrAccessControl`
    AttrAccessControl,
    /// `kSecAttrAccessible`
    AttrAccessible,
    /// `kSecAttrAccount`
    AttrAccount,
    /// `kSecAttrApplicationLabel`
    AttrApplicationLabel,
    /// `kSecAttrApplicationTag`
    AttrApplicationTag,
    /// `kSecAttrIsPermanent`
    AttrIsPermanent,
    /// `kSecAttrKeyClass`
    AttrKeyClass,
    /// `kSecAttrKeyType`
    AttrKeyType,
    /// `kSecAttrKeySizeInBits`
    AttrKeySizeInBits,
    /// `kSecAttrLabel`
    AttrLabel,
    /// `kSecAttrProtocol`
    AttrProtocol,
    /// `kSecAttrServer`
    AttrServer,
    /// `kSecAttrService`
    AttrService,
    /// `kSecAttrSynchronizable`
    AttrSynchronizable,
    /// `kSecAttrTokenID`
    AttrTokenID,
    /// `kSecAttrCanDerive`
    AttrCanDerive,
    /// `kSecAttrCanDecrypt`
    AttrCanDecrypt,
    /// `kSecAttrCanEncrypt`
    AttrCanEncrypt,
    /// `kSecAttrCanSign`
    AttrCanSign,
    /// `kSecAttrCanVerify`
    AttrCanVerify,
    /// `kSecAttrCanWrap`
    AttrCanWrap,
    /// `kSecAttrCanUnwrap`
    AttrCanUnwrap,
    /// `kSecAttrIsExtractable`
    AttrIsExtractable,
    /// `kSecAttrIsSensitive`
    AttrIsSensitive,

    // Accessibility values, for `AttrAccessible`.
    /// `kSecAttrAccessibleWhenPasscodeSetThisDeviceOnly`
    AttrAccessibleWhenPasscodeSetThisDeviceOnly,
    /// `kSecAttrAccessibleWhenUnlockedThisDeviceOnly`
    AttrAccessibleWhenUnlockedThisDeviceOnly,
    /// `kSecAttrAccessibleWhenUnlocked`
    AttrAccessibleWhenUnlocked,
    /// `kSecAttrAccessibleAfterFirstUnlockThisDeviceOnly`
    AttrAccessibleAfterFirstUnlockThisDeviceOnly,
    /// `kSecAttrAccessibleAfterFirstUnlock`
    AttrAccessibleAfterFirstUnlock,
    /// `kSecAttrAccessibleAlwaysThisDeviceOnly`
    AttrAccessibleAlwaysThisDeviceOnly,
    /// `kSecAttrAccessibleAlways`
    AttrAccessibleAlways,

    // Key classes, for `AttrKeyClass`.
    /// `kSecAttrKeyClassPublic`
    AttrKeyClassPublic,
    /// `kSecAttrKeyClassPrivate`
    AttrKeyClassPrivate,
    /// `kSecAttrKeyClassSymmetric`
    AttrKeyClassSymmetric,

    // Key types, for `AttrKeyType`.
    /// `kSecAttrKeyTypeAES`
    AttrKeyTypeAES,
    /// `kSecAttrKeyTypeRSA`
    AttrKeyTypeRSA,
    /// `kSecAttrKeyTypeECSECPrimeRandom`
    AttrKeyTypeECSECPrimeRandom,

    // Protocols, for `AttrProtocol`.
    /// `kSecAttrProtocolFTP`
    AttrProtocolFTP,
    /// `kSecAttrProtocolFTPAccount`
    AttrProtocolFTPAccount,
    /// `kSecAttrProtocolHTTP`
    AttrProtocolHTTP,
    /// `kSecAttrProtocolIRC`
    AttrProtocolIRC,
    /// `kSecAttrProtocolNNTP`
    AttrProtocolNNTP,
    /// `kSecAttrProtocolPOP3`
    AttrProtocolPOP3,
    /// `kSecAttrProtocolSMTP`
    AttrProtocolSMTP,
    /// `kSecAttrProtocolSOCKS`
    AttrProtocolSOCKS,
    /// `kSecAttrProtocolIMAP`
    AttrProtocolIMAP,
    /// `kSecAttrProtocolLDAP`
    AttrProtocolLDAP,
    /// `kSecAttrProtocolAppleTalk`
    AttrProtocolAppleTalk,
    /// `kSecAttrProtocolAFP`
    AttrProtocolAFP,
    /// `kSecAttrProtocolTelnet`
    AttrProtocolTelnet,
    /// `kSecAttrProtocolSSH`
    AttrProtocolSSH,
    /// `kSecAttrProtocolFTPS`
    AttrProtocolFTPS,
    /// `kSecAttrProtocolHTTPS`
    AttrProtocolHTTPS,
    /// `kSecAttrProtocolHTTPProxy`
    AttrProtocolHTTPProxy,
    /// `kSecAttrProtocolHTTPSProxy`
    AttrProtocolHTTPSProxy,
    /// `kSecAttrProtocolFTPProxy`
    AttrProtocolFTPProxy,
    /// `kSecAttrProtocolSMB`
    AttrProtocolSMB,
    /// `kSecAttrProtocolRTSP`
    AttrProtocolRTSP,
    /// `kSecAttrProtocolRTSPProxy`
    AttrProtocolRTSPProxy,
    /// `kSecAttrProtocolDAAP`
    AttrProtocolDAAP,
    /// `kSecAttrProtocolEPPC`
    AttrProtocolEPPC,
    /// `kSecAttrProtocolIPP`
    AttrProtocolIPP,
    /// `kSecAttrProtocolNNTPS`
    AttrProtocolNNTPS,
    /// `kSecAttrProtocolLDAPS`
    AttrProtocolLDAPS,
    /// `kSecAttrProtocolTelnetS`
    AttrProtocolTelnetS,
    /// `kSecAttrProtocolIMAPS`
    AttrProtocolIMAPS,
    /// `kSecAttrProtocolIRCS`
    AttrProtocolIRCS,
    /// `kSecAttrProtocolPOP3S`
    AttrProtocolPOP3S,

    // Token identifiers, for `AttrTokenId`.
    /// `kSecAttrTokenIDSecureEnclave`
    AttrTokenIDSecureEnclave,

    // The item class key and the item classes.
    /// `kSecClass`
    Class,
    /// `kSecClassGenericPassword`
    ClassGenericPassword,
    /// `kSecClassInternetPassword`
    ClassInternetPassword,
    /// `kSecClassCertificate`
    ClassCertificate,
    /// `kSecClassKey`
    ClassKey,
    /// `kSecClassIdentity`
    ClassIdentity,

    // Key algorithms.
    /// `kSecKeyAlgorithmECIESEncryptionStandardX963SHA1AESGCM`
    KeyAlgorithmECIESEncryptionStandardX963SHA1AESGCM,
    /// `kSecKeyAlgorithmECIESEncryptionStandardX963SHA224AESGCM`
    KeyAlgorithmECIESEncryptionStandardX963SHA224AESGCM,
    /// `kSecKeyAlgorithmECIESEncryptionStandardX963SHA256AESGCM`
    KeyAlgorithmECIESEncryptionStandardX963SHA256AESGCM,
    /// `kSecKeyAlgorithmECIESEncryptionStandardX963SHA384AESGCM`
    KeyAlgorithmECIESEncryptionStandardX963SHA384AESGCM,
    /// `kSecKeyAlgorithmECIESEncryptionStandardX963SHA512AESGCM`
    KeyAlgorithmECIESEncryptionStandardX963SHA512AESGCM,
    /// `kSecKeyAlgorithmECIESEncryptionStandardVariableIVX963SHA224AESGCM`
    KeyAlgorithmECIESEncryptionStandardVariableIVX963SHA224AESGCM,
    /// `kSecKeyAlgorithmECIESEncryptionStandardVariableIVX963SHA256AESGCM`
    KeyAlgorithmECIESEncryptionStandardVariableIVX963SHA256AESGCM,
    /// `kSecKeyAlgorithmECIESEncryptionStandardVariableIVX963SHA384AESGCM`
    KeyAlgorithmECIESEncryptionStandardVariableIVX963SHA384AESGCM,
    /// `kSecKeyAlgorithmECIESEncryptionStandardVariableIVX963SHA512AESGCM`
    KeyAlgorithmECIESEncryptionStandardVariableIVX963SHA512AESGCM,
    /// `kSecKeyAlgorithmECIESEncryptionCofactorVariableIVX963SHA224AESGCM`
    KeyAlgorithmECIESEncryptionCofactorVariableIVX963SHA224AESGCM,
    /// `kSecKeyAlgorithmECIESEncryptionCofactorVariableIVX963SHA256AESGCM`
    KeyAlgorithmECIESEncryptionCofactorVariableIVX963SHA256AESGCM,
    /// `kSecKeyAlgorithmECIESEncryptionCofactorVariableIVX963SHA384AESGCM`
    KeyAlgorithmECIESEncryptionCofactorVariableIVX963SHA384AESGCM,
    /// `kSecKeyAlgorithmECIESEncryptionCofactorVariableIVX963SHA512AESGCM`
    KeyAlgorithmECIESEncryptionCofactorVariableIVX963SHA512AESGCM,
    /// `kSecKeyAlgorithmECIESEncryptionCofactorX963SHA1AESGCM`
    KeyAlgorithmECIESEncryptionCofactorX963SHA1AESGCM,
    /// `kSecKeyAlgorithmECIESEncryptionCofactorX963SHA224AESGCM`
    KeyAlgorithmECIESEncryptionCofactorX963SHA224AESGCM,
    /// `kSecKeyAlgorithmECIESEncryptionCofactorX963SHA256AESGCM`
    KeyAlgorithmECIESEncryptionCofactorX963SHA256AESGCM,
    /// `kSecKeyAlgorithmECIESEncryptionCofactorX963SHA384AESGCM`
    KeyAlgorithmECIESEncryptionCofactorX963SHA384AESGCM,
    /// `kSecKeyAlgorithmECIESEncryptionCofactorX963SHA512AESGCM`
    KeyAlgorithmECIESEncryptionCofactorX963SHA512AESGCM,
    /// `kSecKeyAlgorithmECDSASignatureRFC4754`
    KeyAlgorithmECDSASignatureRFC4754,
    /// `kSecKeyAlgorithmECDSASignatureDigestX962`
    KeyAlgorithmECDSASignatureDigestX962,
    /// `kSecKeyAlgorithmECDSASignatureDigestX962SHA1`
    KeyAlgorithmECDSASignatureDigestX962SHA1,
    /// `kSecKeyAlgorithmECDSASignatureDigestX962SHA224`
    KeyAlgorithmECDSASignatureDigestX962SHA224,
    /// `kSecKeyAlgorithmECDSASignatureDigestX962SHA256`
    KeyAlgorithmECDSASignatureDigestX962SHA256,
    /// `kSecKeyAlgorithmECDSASignatureDigestX962SHA384`
    KeyAlgorithmECDSASignatureDigestX962SHA384,
    /// `kSecKeyAlgorithmECDSASignatureDigestX962SHA512`
    KeyAlgorithmECDSASignatureDigestX962SHA512,
    /// `kSecKeyAlgorithmECDSASignatureMessageX962SHA1`
    KeyAlgorithmECDSASignatureMessageX962SHA1,
    /// `kSecKeyAlgorithmECDSASignatureMessageX962SHA224`
    KeyAlgorithmECDSASignatureMessageX962SHA224,
    /// `kSecKeyAlgorithmECDSASignatureMessageX962SHA256`
    KeyAlgorithmECDSASignatureMessageX962SHA256,
    /// `kSecKeyAlgorithmECDSASignatureMessageX962SHA384`
    KeyAlgorithmECDSASignatureMessageX962SHA384,
    /// `kSecKeyAlgorithmECDSASignatureMessageX962SHA512`
    KeyAlgorithmECDSASignatureMessageX962SHA512,
    /// `kSecKeyAlgorithmECDHKeyExchangeCofactor`
    KeyAlgorithmECDHKeyExchangeCofactor,
    /// `kSecKeyAlgorithmECDHKeyExchangeStandard`
    KeyAlgorithmECDHKeyExchangeStandard,
    /// `kSecKeyAlgorithmECDHKeyExchangeCofactorX963SHA1`
    KeyAlgorithmECDHKeyExchangeCofactorX963SHA1,
    /// `kSecKeyAlgorithmECDHKeyExchangeStandardX963SHA1`
    KeyAlgorithmECDHKeyExchangeStandardX963SHA1,
    /// `kSecKeyAlgorithmECDHKeyExchangeCofactorX963SHA224`
    KeyAlgorithmECDHKeyExchangeCofactorX963SHA224,
    /// `kSecKeyAlgorithmECDHKeyExchangeCofactorX963SHA256`
    KeyAlgorithmECDHKeyExchangeCofactorX963SHA256,
    /// `kSecKeyAlgorithmECDHKeyExchangeCofactorX963SHA384`
    KeyAlgorithmECDHKeyExchangeCofactorX963SHA384,
    /// `kSecKeyAlgorithmECDHKeyExchangeCofactorX963SHA512`
    KeyAlgorithmECDHKeyExchangeCofactorX963SHA512,
    /// `kSecKeyAlgorithmECDHKeyExchangeStandardX963SHA224`
    KeyAlgorithmECDHKeyExchangeStandardX963SHA224,
    /// `kSecKeyAlgorithmECDHKeyExchangeStandardX963SHA256`
    KeyAlgorithmECDHKeyExchangeStandardX963SHA256,
    /// `kSecKeyAlgorithmECDHKeyExchangeStandardX963SHA384`
    KeyAlgorithmECDHKeyExchangeStandardX963SHA384,
    /// `kSecKeyAlgorithmECDHKeyExchangeStandardX963SHA512`
    KeyAlgorithmECDHKeyExchangeStandardX963SHA512,
    /// `kSecKeyAlgorithmRSAEncryptionRaw`
    KeyAlgorithmRSAEncryptionRaw,
    /// `kSecKeyAlgorithmRSAEncryptionPKCS1`
    KeyAlgorithmRSAEncryptionPKCS1,
    /// `kSecKeyAlgorithmRSAEncryptionOAEPSHA1`
    KeyAlgorithmRSAEncryptionOAEPSHA1,
    /// `kSecKeyAlgorithmRSAEncryptionOAEPSHA224`
    KeyAlgorithmRSAEncryptionOAEPSHA224,
    /// `kSecKeyAlgorithmRSAEncryptionOAEPSHA256`
    KeyAlgorithmRSAEncryptionOAEPSHA256,
    /// `kSecKeyAlgorithmRSAEncryptionOAEPSHA384`
    KeyAlgorithmRSAEncryptionOAEPSHA384,
    /// `kSecKeyAlgorithmRSAEncryptionOAEPSHA512`
    KeyAlgorithmRSAEncryptionOAEPSHA512,
    /// `kSecKeyAlgorithmRSAEncryptionOAEPSHA1AESGCM`
    KeyAlgorithmRSAEncryptionOAEPSHA1AESGCM,
    /// `kSecKeyAlgorithmRSAEncryptionOAEPSHA224AESGCM`
    KeyAlgorithmRSAEncryptionOAEPSHA224AESGCM,
    /// `kSecKeyAlgorithmRSAEncryptionOAEPSHA256AESGCM`
    KeyAlgorithmRSAEncryptionOAEPSHA256AESGCM,
    /// `kSecKeyAlgorithmRSAEncryptionOAEPSHA384AESGCM`
    KeyAlgorithmRSAEncryptionOAEPSHA384AESGCM,
    /// `kSecKeyAlgorithmRSAEncryptionOAEPSHA512AESGCM`
    KeyAlgorithmRSAEncryptionOAEPSHA512AESGCM,
    /// `kSecKeyAlgorithmRSASignatureRaw`
    KeyAlgorithmRSASignatureRaw,
    /// `kSecKeyAlgorithmRSASignatureDigestPKCS1v15Raw`
    KeyAlgorithmRSASignatureDigestPKCS1v15Raw,
    /// `kSecKeyAlgorithmRSASignatureDigestPKCS1v15SHA1`
    KeyAlgorithmRSASignatureDigestPKCS1v15SHA1,
    /// `kSecKeyAlgorithmRSASignatureDigestPKCS1v15SHA224`
    KeyAlgorithmRSASignatureDigestPKCS1v15SHA224,
    /// `kSecKeyAlgorithmRSASignatureDigestPKCS1v15SHA256`
    KeyAlgorithmRSASignatureDigestPKCS1v15SHA256,
    /// `kSecKeyAlgorithmRSASignatureDigestPKCS1v15SHA384`
    KeyAlgorithmRSASignatureDigestPKCS1v15SHA384,
    /// `kSecKeyAlgorithmRSASignatureDigestPKCS1v15SHA512`
    KeyAlgorithmRSASignatureDigestPKCS1v15SHA512,
    /// `kSecKeyAlgorithmRSASignatureMessagePKCS1v15SHA1`
    KeyAlgorithmRSASignatureMessagePKCS1v15SHA1,
    /// `kSecKeyAlgorithmRSASignatureMessagePKCS1v15SHA224`
    KeyAlgorithmRSASignatureMessagePKCS1v15SHA224,
    /// `kSecKeyAlgorithmRSASignatureMessagePKCS1v15SHA256`
    KeyAlgorithmRSASignatureMessagePKCS1v15SHA256,
    /// `kSecKeyAlgorithmRSASignatureMessagePKCS1v15SHA384`
    KeyAlgorithmRSASignatureMessagePKCS1v15SHA384,
    /// `kSecKeyAlgorithmRSASignatureMessagePKCS1v15SHA512`
    KeyAlgorithmRSASignatureMessagePKCS1v15SHA512,
    /// `kSecKeyAlgorithmRSASignatureDigestPSSSHA1`
    KeyAlgorithmRSASignatureDigestPSSSHA1,
    /// `kSecKeyAlgorithmRSASignatureDigestPSSSHA224`
    KeyAlgorithmRSASignatureDigestPSSSHA224,
    /// `kSecKeyAlgorithmRSASignatureDigestPSSSHA256`
    KeyAlgorithmRSASignatureDigestPSSSHA256,
    /// `kSecKeyAlgorithmRSASignatureDigestPSSSHA384`
    KeyAlgorithmRSASignatureDigestPSSSHA384,
    /// `kSecKeyAlgorithmRSASignatureDigestPSSSHA512`
    KeyAlgorithmRSASignatureDigestPSSSHA512,
    /// `kSecKeyAlgorithmRSASignatureMessagePSSSHA1`
    KeyAlgorithmRSASignatureMessagePSSSHA1,
    /// `kSecKeyAlgorithmRSASignatureMessagePSSSHA224`
    KeyAlgorithmRSASignatureMessagePSSSHA224,
    /// `kSecKeyAlgorithmRSASignatureMessagePSSSHA256`
    KeyAlgorithmRSASignatureMessagePSSSHA256,
    /// `kSecKeyAlgorithmRSASignatureMessagePSSSHA384`
    KeyAlgorithmRSASignatureMessagePSSSHA384,
    /// `kSecKeyAlgorithmRSASignatureMessagePSSSHA512`
    KeyAlgorithmRSASignatureMessagePSSSHA512,

    // Attribute constants of keys, for `KeyAttr`.
    /// `kSecKeyAlwaysSensitive`
    KeyAlwaysSensitive,
    /// `kSecKeyDerive`
    KeyDerive,
    /// `kSecKeyDecrypt`
    KeyDecrypt,
    /// `kSecKeyEncrypt`
    KeyEncrypt,
    /// `kSecKeySign`
    KeySign,
    /// `kSecKeyUnwrap`
    KeyUnwrap,
    /// `kSecKeyVerify`
    KeyVerify,
    /// `kSecKeyWrap`
    KeyWrap,
    /// `kSecKeyExtractable`
    KeyExtractable,
    /// `kSecKeyEffectiveKeySize`
    KeyEffectiveKeySize,
    /// `kSecKeyEndDate`
    KeyEndDate,
    /// `kSecKeyModifiable`
    KeyModifiable,
    /// `kSecKeyNeverExtractable`
    KeyNeverExtractable,
    /// `kSecKeyPermanent`
    KeyPermanent,
    /// `kSecKeyPrivate`
    KeyPrivate,
    /// `kSecKeySensitive`
    KeySensitive,
    /// `kSecKeyKeySizeInBits`
    KeyKeySizeInBits,
    /// `kSecKeyStartDate`
    KeyStartDate,
    /// `kSecKeyKeyType`
    KeyKeyType,

    // Search, result and use keys.
    /// `kSecMatchLimit`
    MatchLimit,
    /// `kSecMatchLimitOne`
    MatchLimitOne,
    /// `kSecMatchLimitAll`
    MatchLimitAll,
    /// `kSecPrivateKeyAttrs`
    PrivateKeyAttrs,
    /// `kSecReturnRef`
    ReturnRef,
    /// `kSecUseOperationPrompt`
    UseOperationPrompt,
    /// `kSecValueData`
    ValueData,
    /// `kSecUseKeychain`
    UseKeychain,
}

} // verus!
