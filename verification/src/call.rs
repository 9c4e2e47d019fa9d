//! The boundary to the security framework: what the library asks of it, and what it
//! takes back.
//!
//! The library performs no call itself. An operation has two halves: one that says
//! which function of the framework is to be called and with what (a [`Call`]), and one
//! that takes what the function handed back and makes the typed result of it. Whoever
//! links the framework performs the call in between.

use crate::constant::Constant;
use crate::dictionary::{Dictionary, DictionaryView};
use crate::error::{CFError, Error, OSStatus};
use crate::handle::Handle;
use vstd::prelude::*;

verus! {

/// The part of a keychain item that `SecKeychainItemCopyContent` is asked for.
#[derive(Clone, Copy, Debug, PartialEq, Eq, Hash, Structural)]
pub enum ItemContent {
    /// The class of the item.
    Class,
    /// The attributes of the item.
    Attributes,
    /// The data of the item: for a password, the password.
    Data,
}

/// One call of a function of the security framework, with its arguments.
#[derive(Clone, Debug, PartialEq, Eq)]
pub enum Call {
    /// `SecAccessControlCreateWithFlags`
    AccessControlCreateWithFlags { protection: Constant, flags: u64 },
    /// `SecItemCopyMatching`
    ItemCopyMatching { query: Dictionary },
    /// `SecItemAdd`
    ItemAdd { attributes: Dictionary },
    /// `SecItemDelete`
    ItemDelete { query: Dictionary },
    /// `SecKeyGeneratePair`
    KeyGeneratePair { parameters: Dictionary },
    /// `SecKeyCreateRandomKey`
    KeyCreateRandomKey { parameters: Dictionary },
    /// `SecKeyCopyPublicKey`
    KeyCopyPublicKey { key: Handle },
    /// `SecKeyCopyAttributes`
    KeyCopyAttributes { key: Handle },
    /// `SecKeyIsAlgorithmSupported`
    KeyIsAlgorithmSupported { key: Handle, operation: isize, algorithm: Constant },
    /// `SecKeyCreateSignature`
    KeyCreateSignature { key: Handle, algorithm: Constant, data_to_sign: Vec<u8> },
    /// `SecKeyVerifySignature`
    KeyVerifySignature {
        key: Handle,
        algorithm: Constant,
        signed_data: Vec<u8>,
        signature: Vec<u8>,
    },
    /// `SecKeyCreateEncryptedData`
    KeyCreateEncryptedData { key: Handle, algorithm: Constant, plaintext: Vec<u8> },
    /// `SecKeyCreateDecryptedData`
    KeyCreateDecryptedData { key: Handle, algorithm: Constant, ciphertext: Vec<u8> },
    /// `SecKeyCopyExternalRepresentation`
    KeyCopyExternalRepresentation { key: Handle },
    /// `SecKeyCreateWithData`
    KeyCreateWithData { key_data: Vec<u8>, attributes: Dictionary },
    /// `SecKeychainCopyDefault`
    KeychainCopyDefault,
    /// `SecKeychainCreate`. Without a password the user is asked for one.
    KeychainCreate {
        path: Vec<u8>,
        password: Option<Vec<u8>>,
        password_length: u32,
        prompt_user: bool,
    },
    /// `SecKeychainDelete`
    KeychainDelete { keychain: Handle },
    /// `SecKeychainItemCopyContent`
    KeychainItemCopyContent { item: Handle, content: ItemContent },
}

/// What a [`Call`] is, as a mathematical value: variant for variant the same, with
/// views in place of dictionaries and vectors.
pub enum CallView {
    AccessControlCreateWithFlags { protection: Constant, flags: u64 },
    ItemCopyMatching { query: DictionaryView },
    ItemAdd { attributes: DictionaryView },
    ItemDelete { query: DictionaryView },
    KeyGeneratePair { parameters: DictionaryView },
    KeyCreateRandomKey { parameters: DictionaryView },
    KeyCopyPublicKey { key: Handle },
    KeyCopyAttributes { key: Handle },
    KeyIsAlgorithmSupported { key: Handle, operation: isize, algorithm: Constant },
    KeyCreateSignature { key: Handle, algorithm: Constant, data_to_sign: Seq<u8> },
    KeyVerifySignature {
        key: Handle,
        algorithm: Constant,
        signed_data: Seq<u8>,
        signature: Seq<u8>,
    },
    KeyCreateEncryptedData { key: Handle, algorithm: Constant, plaintext: Seq<u8> },
    KeyCreateDecryptedData { key: Handle, algorithm: Constant, ciphertext: Seq<u8> },
    KeyCopyExternalRepresentation { key: Handle },
    KeyCreateWithData { key_data: Seq<u8>, attributes: DictionaryView },
    KeychainCopyDefault,
    KeychainCreate {
        path: Seq<u8>,
        password: Option<Seq<u8>>,
        password_length: u32,
        prompt_user: bool,
    },
    KeychainDelete { keychain: Handle },
    KeychainItemCopyContent { item: Handle, content: ItemContent },
}

impl View for Call {
    type V = CallView;

    open spec fn view(&self) -> CallView {
        match self {
            Call::AccessControlCreateWithFlags { protection, flags } => {
                CallView::AccessControlCreateWithFlags { protection: *protection, flags: *flags }
            },
            Call::ItemCopyMatching { query } => CallView::ItemCopyMatching { query: query@ },
            Call::ItemAdd { attributes } => CallView::ItemAdd { attributes: attributes@ },
            Call::ItemDelete { query } => CallView::ItemDelete { query: query@ },
            Call::KeyGeneratePair { parameters } => CallView::KeyGeneratePair {
                parameters: parameters@,
            },
            Call::KeyCreateRandomKey { parameters } => CallView::KeyCreateRandomKey {
                parameters: parameters@,
            },
            Call::KeyCopyPublicKey { key } => CallView::KeyCopyPublicKey { key: *key },
            Call::KeyCopyAttributes { key } => CallView::KeyCopyAttributes { key: *key },
            Call::KeyIsAlgorithmSupported { key, operation, algorithm } => {
                CallView::KeyIsAlgorithmSupported {
                    key: *key,
                    operation: *operation,
                    algorithm: *algorithm,
                }
            },
            Call::KeyCreateSignature { key, algorithm, data_to_sign } => {
                CallView::KeyCreateSignature {
                    key: *key,
                    algorithm: *algorithm,
                    data_to_sign: data_to_sign@,
                }
            },
            Call::KeyVerifySignature { key, algorithm, signed_data, signature } => {
                CallView::KeyVerifySignature {
                    key: *key,
                    algorithm: *algorithm,
                    signed_data: signed_data@,
                    signature: signature@,
                }
            },
            Call::KeyCreateEncryptedData { key, algorithm, plaintext } => {
                CallView::KeyCreateEncryptedData {
                    key: *key,
                    algorithm: *algorithm,
                    plaintext: plaintext@,
                }
            },
            Call::KeyCreateDecryptedData { key, algorithm, ciphertext } => {
                CallView::KeyCreateDecryptedData {
                    key: *key,
                    algorithm: *algorithm,
                    ciphertext: ciphertext@,
                }
            },
            Call::KeyCopyExternalRepresentation { key } => {
                CallView::KeyCopyExternalRepresentation { key: *key }
            },
            Call::KeyCreateWithData { key_data, attributes } => CallView::KeyCreateWithData {
                key_data: key_data@,
                attributes: attributes@,
            },
            Call::KeychainCopyDefault => CallView::KeychainCopyDefault,
            Call::KeychainCreate { path, password, password_length, prompt_user } => {
                CallView::KeychainCreate {
                    path: path@,
                    password: match password {
                        Some(bytes) => Some(bytes@),
                        None => None,
                    },
                    password_length: *password_length,
                    prompt_user: *prompt_user,
                }
            },
            Call::KeychainDelete { keychain } => CallView::KeychainDelete { keychain: *keychain },
            Call::KeychainItemCopyContent { item, content } => CallView::KeychainItemCopyContent {
                item: *item,
                content: *content,
            },
        }
    }
}

/// What a call that reports through a status code hands back: the status code, and
/// the message that the framework gives for that code (`SecCopyErrorMessageString`).
#[derive(Clone, Debug, PartialEq, Eq)]
pub struct StatusReply {
    /// The status code.
    pub status: OSStatus,
    /// The framework's message for the status code.
    pub message: String,
}

/// What a call that hands back bytes or an error object comes to: the error object,
/// translated, if there is one, and the bytes if there is none.
pub open spec fn data_outcome(
    r: Result<Vec<u8>, Error>,
    data: Option<Vec<u8>>,
    error: Option<&CFError>,
) -> bool {
    match error {
        None => r matches Ok(bytes) && data matches Some(given) && bytes@ == given@,
        Some(object) => r matches Err(translated) && translated.translates_object(*object),
    }
}

/// What a call that reports through a status code comes to where it failed: the
/// status code, translated.
pub open spec fn status_failure<T>(r: Result<T, Error>, reply: StatusReply) -> bool {
    r matches Err(translated) && translated.translates_status(reply.status, reply.message@)
}

} // verus!
