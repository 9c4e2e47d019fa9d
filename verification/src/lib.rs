//! A typed layer over the keychain service of the operating system.
//!
//! The keychain service takes its parameters as dictionaries of untyped pairs and
//! reports through status codes and error objects. This library is the typed side of
//! that boundary: it builds the dictionaries from typed options, says which function
//! of the framework an operation calls and with what, and turns what the function
//! hands back into typed values and typed errors.
//!
//! The library calls nothing itself. Every operation comes in two halves, one that
//! gives a [`Call`] and one, named `finish_…`, that takes the framework's answer. What
//! is proved of them holds of every answer the framework may give.

pub mod access;
pub mod algorithm;
pub mod attr;
pub mod call;
pub mod ciphertext;
pub mod code;
pub mod constant;
pub mod dictionary;
pub mod error;
pub mod handle;
pub mod item;
pub mod key;
pub mod keychain;
pub mod operation;
pub mod pair;
pub mod password;
pub mod query;
pub mod signature;
pub mod text;

pub use access::{
    AccessConjunction, AccessConstraint, AccessControl, AccessControlFlag, AccessControlFlags,
    AccessFlag, AccessOption,
};
pub use algorithm::{KeyAlgorithm, SecKeyAlgorithm};
pub use attr::{
    AttrAccessible, AttrApplicationLabel, AttrApplicationTag, AttrKeyClass, AttrKeyType, AttrKind,
    AttrLabel, AttrProtocol, AttrTokenId, KeyAttr, TAttr,
};
pub use call::{Call, ItemContent, StatusReply};
pub use ciphertext::Ciphertext;
pub use code::{constant_of_code, FourCharacterCode};
pub use constant::Constant;
pub use dictionary::{Dictionary, DictionaryBuilder, Value};
pub use error::{CFError, Error, ErrorKind, OSStatus};
pub use handle::Handle;
pub use item::{Class, Item, ItemAttribute};
pub use key::Key;
pub use keychain::Keychain;
pub use operation::KeyOperation;
pub use pair::{GeneratePairParams, KeyPair, KeyPairGenerateParams, RestoreKeyParams};
pub use password::{GenericPassword, InternetPassword, PasswordData};
pub use query::{MatchLimit, Query, SecItemQueryParams, SecMatchLimit};
pub use signature::Signature;
