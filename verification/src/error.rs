//! Errors: how the framework's status codes and error objects become typed errors.
//!
//! The framework reports failure in two forms. Most calls return a status code, a
//! number; [`ErrorKind::from`] looks it up in the table of known codes. Others hand
//! back an error object with a code and a domain; it always becomes
//! [`ErrorKind::CFError`], whatever its code, so that a code of one domain is never
//! taken for a status code.

use crate::attr::AttrKind;
use crate::text::{decimal, decimal_string};
use failure::Backtrace;
use vstd::prelude::*;
use vstd::std_specs::convert::FromSpecImpl;
use vstd::string::StringExecFns;

verus! {

/// A status code of the security framework.
pub type OSStatus = i32;

/// The status code of success.
#[allow(non_upper_case_globals)]
pub const errSecSuccess: OSStatus = 0;

/// The status code of [`ErrorKind::AuthFailed`].
#[allow(non_upper_case_globals)]
pub const errSecAuthFailed: OSStatus = -25293;

/// The status code of [`ErrorKind::BufferTooSmall`].
#[allow(non_upper_case_globals)]
pub const errSecBufferTooSmall: OSStatus = -25301;

/// The status code of [`ErrorKind::CreateChainFailed`].
#[allow(non_upper_case_globals)]
pub const errSecCreateChainFailed: OSStatus = -25318;

/// The status code of [`ErrorKind::DataTooLarge`].
#[allow(non_upper_case_globals)]
pub const errSecDataTooLarge: OSStatus = -25302;

/// The status code of [`ErrorKind::DataNotAvailable`].
#[allow(non_upper_case_globals)]
pub const errSecDataNotAvailable: OSStatus = -25316;

/// The status code of [`ErrorKind::DataNotModifiable`].
#[allow(non_upper_case_globals)]
pub const errSecDataNotModifiable: OSStatus = -25317;

/// The status code of [`ErrorKind::DuplicateCallback`].
#[allow(non_upper_case_globals)]
pub const errSecDuplicateCallback: OSStatus = -25297;

/// The status code of [`ErrorKind::DuplicateItem`].
#[allow(non_upper_case_globals)]
pub const errSecDuplicateItem: OSStatus = -25299;

/// The status code of [`ErrorKind::DuplicateKeychain`].
#[allow(non_upper_case_globals)]
pub const errSecDuplicateKeychain: OSStatus = -25296;

/// The status code of [`ErrorKind::InDarkWake`].
#[allow(non_upper_case_globals)]
pub const errSecInDarkWake: OSStatus = -25320;

/// The status code of [`ErrorKind::InteractionNotAllowed`].
#[allow(non_upper_case_globals)]
pub const errSecInteractionNotAllowed: OSStatus = -25308;

/// The status code of [`ErrorKind::InteractionRequired`].
#[allow(non_upper_case_globals)]
pub const errSecInteractionRequired: OSStatus = -25315;

/// The status code of [`ErrorKind::InvalidCallback`].
#[allow(non_upper_case_globals)]
pub const errSecInvalidCallback: OSStatus = -25298;

/// The status code of [`ErrorKind::InvalidItemRef`].
#[allow(non_upper_case_globals)]
pub const errSecInvalidItemRef: OSStatus = -25304;

/// The status code of [`ErrorKind::InvalidKeychain`].
#[allow(non_upper_case_globals)]
pub const errSecInvalidKeychain: OSStatus = -25295;

/// The status code of [`ErrorKind::InvalidPrefsDomain`].
#[allow(non_upper_case_globals)]
pub const errSecInvalidPrefsDomain: OSStatus = -25319;

/// The status code of [`ErrorKind::InvalidSearchRef`].
#[allow(non_upper_case_globals)]
pub const errSecInvalidSearchRef: OSStatus = -25305;

/// The status code of [`ErrorKind::ItemNotFound`].
#[allow(non_upper_case_globals)]
pub const errSecItemNotFound: OSStatus = -25300;

/// The status code of [`ErrorKind::KeySizeNotAllowed`].
#[allow(non_upper_case_globals)]
pub const errSecKeySizeNotAllowed: OSStatus = -25311;

/// The status code of [`ErrorKind::MissingEntitlement`].
#[allow(non_upper_case_globals)]
pub const errSecMissingEntitlement: OSStatus = -34018;

/// The status code of [`ErrorKind::NoCertificateModule`].
#[allow(non_upper_case_globals)]
pub const errSecNoCertificateModule: OSStatus = -25313;

/// The status code of [`ErrorKind::NoDefaultKeychain`].
#[allow(non_upper_case_globals)]
pub const errSecNoDefaultKeychain: OSStatus = -25307;

/// The status code of [`ErrorKind::NoPolicyModule`].
#[allow(non_upper_case_globals)]
pub const errSecNoPolicyModule: OSStatus = -25314;

/// The status code of [`ErrorKind::NoStorageModule`].
#[allow(non_upper_case_globals)]
pub const errSecNoStorageModule: OSStatus = -25312;

/// The status code of [`ErrorKind::NoSuchAttr`].
#[allow(non_upper_case_globals)]
pub const errSecNoSuchAttr: OSStatus = -25303;

/// The status code of [`ErrorKind::NoSuchClass`].
#[allow(non_upper_case_globals)]
pub const errSecNoSuchClass: OSStatus = -25306;

/// The status code of [`ErrorKind::NoSuchKeychain`].
#[allow(non_upper_case_globals)]
pub const errSecNoSuchKeychain: OSStatus = -25294;

/// The status code of [`ErrorKind::NotAvailable`].
#[allow(non_upper_case_globals)]
pub const errSecNotAvailable: OSStatus = -25291;

/// The status code of [`ErrorKind::ReadOnly`].
#[allow(non_upper_case_globals)]
pub const errSecReadOnly: OSStatus = -25292;

/// The status code of [`ErrorKind::ReadOnlyAttr`].
#[allow(non_upper_case_globals)]
pub const errSecReadOnlyAttr: OSStatus = -25309;

/// The status code of [`ErrorKind::WrongSecVersion`].
#[allow(non_upper_case_globals)]
pub const errSecWrongSecVersion: OSStatus = -25310;

/// What an error object of the framework holds: a code, the domain that gives the
/// code its meaning, and a description for people.
#[derive(Clone, Debug, PartialEq, Eq)]
pub struct CFError {
    /// The code, which means something only within the domain.
    pub code: i64,
    /// The domain.
    pub domain: String,
    /// The framework's description of the error.
    pub description: String,
}

/// The kinds of errors.
#[derive(Clone, Debug, PartialEq, Eq)]
pub enum ErrorKind {
    /// Authentication or authorization failed. (`errSecAuthFailed`)
    AuthFailed,
    /// The buffer is too small. (`errSecBufferTooSmall`)
    BufferTooSmall,
    /// The attempt to build a certificate chain failed. (`errSecCreateChainFailed`)
    CreateChainFailed,
    /// The data is too large for its type. (`errSecDataTooLarge`)
    DataTooLarge,
    /// The data is not available. (`errSecDataNotAvailable`)
    DataNotAvailable,
    /// The data cannot be changed. (`errSecDataNotModifiable`)
    DataNotModifiable,
    /// A callback of that name is already there. (`errSecDuplicateCallback`)
    DuplicateCallback,
    /// The item is already there. (`errSecDuplicateItem`)
    DuplicateItem,
    /// A keychain of that name is already there. (`errSecDuplicateKeychain`)
    DuplicateKeychain,
    /// The system is in a dark wake state and cannot show a user interface. (`errSecInDarkWake`)
    InDarkWake,
    /// Interaction with the security server is not allowed here. (`errSecInteractionNotAllowed`)
    InteractionNotAllowed,
    /// The user has to interact. (`errSecInteractionRequired`)
    InteractionRequired,
    /// The callback is not valid. (`errSecInvalidCallback`)
    InvalidCallback,
    /// The item reference is not valid. (`errSecInvalidItemRef`)
    InvalidItemRef,
    /// The keychain is not valid. (`errSecInvalidKeychain`)
    InvalidKeychain,
    /// The preference domain is not valid. (`errSecInvalidPrefsDomain`)
    InvalidPrefsDomain,
    /// The search reference is not valid. (`errSecInvalidSearchRef`)
    InvalidSearchRef,
    /// The item could not be found. (`errSecItemNotFound`)
    ItemNotFound,
    /// The key size is not allowed. (`errSecKeySizeNotAllowed`)
    KeySizeNotAllowed,
    /// An entitlement is missing: the application is unsigned, or lacks the entitlement that the
    /// call needs. (`errSecMissingEntitlement`)
    MissingEntitlement,
    /// No certificate module is available. (`errSecNoCertificateModule`)
    NoCertificateModule,
    /// There is no default keychain. (`errSecNoDefaultKeychain`)
    NoDefaultKeychain,
    /// No policy module is available. (`errSecNoPolicyModule`)
    NoPolicyModule,
    /// No storage module is available. (`errSecNoStorageModule`)
    NoStorageModule,
    /// The attribute does not exist. (`errSecNoSuchAttr`)
    NoSuchAttr,
    /// The item class does not exist. (`errSecNoSuchClass`)
    NoSuchClass,
    /// The keychain does not exist. (`errSecNoSuchKeychain`)
    NoSuchKeychain,
    /// Trust results are not available. (`errSecNotAvailable`)
    NotAvailable,
    /// The item is read-only. (`errSecReadOnly`)
    ReadOnly,
    /// The attribute is read-only. (`errSecReadOnlyAttr`)
    ReadOnlyAttr,
    /// The version is wrong. (`errSecWrongSecVersion`)
    WrongSecVersion,
    /// An error object of the framework.
    CFError {
        /// The code of the error object.
        code: i64,
        /// The domain of the error object.
        domain: String,
    },
    /// A status code that is not in the table of known codes.
    OSError {
        /// The status code.
        code: i64,
    },
}

impl ErrorKind {
    /// The status code that this kind stands for. The two kinds that carry a code of
    /// their own stand for none.
    pub open spec fn status(self) -> Option<OSStatus> {
        match self {
            ErrorKind::AuthFailed => Some(errSecAuthFailed),
            ErrorKind::BufferTooSmall => Some(errSecBufferTooSmall),
            ErrorKind::CreateChainFailed => Some(errSecCreateChainFailed),
            ErrorKind::DataTooLarge => Some(errSecDataTooLarge),
            ErrorKind::DataNotAvailable => Some(errSecDataNotAvailable),
            ErrorKind::DataNotModifiable => Some(errSecDataNotModifiable),
            ErrorKind::DuplicateCallback => Some(errSecDuplicateCallback),
            ErrorKind::DuplicateItem => Some(errSecDuplicateItem),
            ErrorKind::DuplicateKeychain => Some(errSecDuplicateKeychain),
            ErrorKind::InDarkWake => Some(errSecInDarkWake),
            ErrorKind::InteractionNotAllowed => Some(errSecInteractionNotAllowed),
            ErrorKind::InteractionRequired => Some(errSecInteractionRequired),
            ErrorKind::InvalidCallback => Some(errSecInvalidCallback),
            ErrorKind::InvalidItemRef => Some(errSecInvalidItemRef),
            ErrorKind::InvalidKeychain => Some(errSecInvalidKeychain),
            ErrorKind::InvalidPrefsDomain => Some(errSecInvalidPrefsDomain),
            ErrorKind::InvalidSearchRef => Some(errSecInvalidSearchRef),
            ErrorKind::ItemNotFound => Some(errSecItemNotFound),
            ErrorKind::KeySizeNotAllowed => Some(errSecKeySizeNotAllowed),
            ErrorKind::MissingEntitlement => Some(errSecMissingEntitlement),
            ErrorKind::NoCertificateModule => Some(errSecNoCertificateModule),
            ErrorKind::NoDefaultKeychain => Some(errSecNoDefaultKeychain),
            ErrorKind::NoPolicyModule => Some(errSecNoPolicyModule),
            ErrorKind::NoStorageModule => Some(errSecNoStorageModule),
            ErrorKind::NoSuchAttr => Some(errSecNoSuchAttr),
            ErrorKind::NoSuchClass => Some(errSecNoSuchClass),
            ErrorKind::NoSuchKeychain => Some(errSecNoSuchKeychain),
            ErrorKind::NotAvailable => Some(errSecNotAvailable),
            ErrorKind::ReadOnly => Some(errSecReadOnly),
            ErrorKind::ReadOnlyAttr => Some(errSecReadOnlyAttr),
            ErrorKind::WrongSecVersion => Some(errSecWrongSecVersion),
            ErrorKind::CFError { .. } => None,
            ErrorKind::OSError { .. } => None,
        }
    }

    /// Whether a status code is in the table of known codes.
    pub open spec fn is_known(status: OSStatus) -> bool {
        exists|kind: ErrorKind| kind.status() == Some(status)
    }

    /// The kind of a status code: the kind that stands for it, or `OSError` with the
    /// code where no kind does.
    pub open spec fn of_status(status: OSStatus) -> ErrorKind {
        if Self::is_known(status) {
            choose|kind: ErrorKind| kind.status() == Some(status)
        } else {
            ErrorKind::OSError { code: status as i64 }
        }
    }

    /// Whether this is the kind of an error object with the given code and domain.
    pub open spec fn is_cf_error(self, code: i64, domain: Seq<char>) -> bool {
        self matches ErrorKind::CFError { code: c, domain: d } && c == code && d@ == domain
    }

    /// What [`ErrorKind::to_string`] writes.
    pub open spec fn display(self) -> Seq<char> {
        match self {
            ErrorKind::AuthFailed => "authentication failed"@,
            ErrorKind::BufferTooSmall => "buffer too small"@,
            ErrorKind::CreateChainFailed => "certificate chain creation attempt failed"@,
            ErrorKind::DataTooLarge => "data too large"@,
            ErrorKind::DataNotAvailable => "data not available"@,
            ErrorKind::DataNotModifiable => "data not modifiable"@,
            ErrorKind::DuplicateCallback => "duplicate callback"@,
            ErrorKind::DuplicateItem => "duplicate item"@,
            ErrorKind::DuplicateKeychain => "duplicate keychain"@,
            ErrorKind::InDarkWake => "in dark wake"@,
            ErrorKind::InteractionNotAllowed => "interaction not allowed"@,
            ErrorKind::InteractionRequired => "user interaction required"@,
            ErrorKind::InvalidCallback => "invalid callback"@,
            ErrorKind::InvalidItemRef => "invalid item ref"@,
            ErrorKind::InvalidKeychain => "invalid keychain"@,
            ErrorKind::InvalidPrefsDomain => "invalid preference domain"@,
            ErrorKind::InvalidSearchRef => "search ref is invalid"@,
            ErrorKind::ItemNotFound => "item not found"@,
            ErrorKind::KeySizeNotAllowed => "key size not allowed"@,
            ErrorKind::MissingEntitlement => {
                "missing application entitlement (errSecMissingEntitlement)"@
            },
            ErrorKind::NoCertificateModule => "no certificate module"@,
            ErrorKind::NoDefaultKeychain => "no default keychain"@,
            ErrorKind::NoPolicyModule => "no policy module"@,
            ErrorKind::NoStorageModule => "no storage module"@,
            ErrorKind::NoSuchAttr => "no such attr"@,
            ErrorKind::NoSuchClass => "no such class"@,
            ErrorKind::NoSuchKeychain => "no such keychain"@,
            ErrorKind::NotAvailable => "not available"@,
            ErrorKind::ReadOnly => "read-only"@,
            ErrorKind::ReadOnlyAttr => "read-only attr"@,
            ErrorKind::WrongSecVersion => "wrong version"@,
            ErrorKind::CFError { code, domain } => "Core Foundation error (code: "@ + decimal(code)
                + ", domain: "@ + domain@ + ")"@,
            ErrorKind::OSError { code } => "unknown OS error (code: "@ + decimal(code) + ")"@,
        }
    }

    /// The status code that this kind stands for, if it stands for one.
    pub fn status_code(&self) -> (r: Option<OSStatus>)
        ensures
            r == self.status(),
    {
        match self {
            ErrorKind::AuthFailed => Some(errSecAuthFailed),
            ErrorKind::BufferTooSmall => Some(errSecBufferTooSmall),
            ErrorKind::CreateChainFailed => Some(errSecCreateChainFailed),
            ErrorKind::DataTooLarge => Some(errSecDataTooLarge),
            ErrorKind::DataNotAvailable => Some(errSecDataNotAvailable),
            ErrorKind::DataNotModifiable => Some(errSecDataNotModifiable),
            ErrorKind::DuplicateCallback => Some(errSecDuplicateCallback),
            ErrorKind::DuplicateItem => Some(errSecDuplicateItem),
            ErrorKind::DuplicateKeychain => Some(errSecDuplicateKeychain),
            ErrorKind::InDarkWake => Some(errSecInDarkWake),
            ErrorKind::InteractionNotAllowed => Some(errSecInteractionNotAllowed),
            ErrorKind::InteractionRequired => Some(errSecInteractionRequired),
            ErrorKind::InvalidCallback => Some(errSecInvalidCallback),
            ErrorKind::InvalidItemRef => Some(errSecInvalidItemRef),
            ErrorKind::InvalidKeychain => Some(errSecInvalidKeychain),
            ErrorKind::InvalidPrefsDomain => Some(errSecInvalidPrefsDomain),
            ErrorKind::InvalidSearchRef => Some(errSecInvalidSearchRef),
            ErrorKind::ItemNotFound => Some(errSecItemNotFound),
            ErrorKind::KeySizeNotAllowed => Some(errSecKeySizeNotAllowed),
            ErrorKind::MissingEntitlement => Some(errSecMissingEntitlement),
            ErrorKind::NoCertificateModule => Some(errSecNoCertificateModule),
            ErrorKind::NoDefaultKeychain => Some(errSecNoDefaultKeychain),
            ErrorKind::NoPolicyModule => Some(errSecNoPolicyModule),
            ErrorKind::NoStorageModule => Some(errSecNoStorageModule),
            ErrorKind::NoSuchAttr => Some(errSecNoSuchAttr),
            ErrorKind::NoSuchClass => Some(errSecNoSuchClass),
            ErrorKind::NoSuchKeychain => Some(errSecNoSuchKeychain),
            ErrorKind::NotAvailable => Some(errSecNotAvailable),
            ErrorKind::ReadOnly => Some(errSecReadOnly),
            ErrorKind::ReadOnlyAttr => Some(errSecReadOnlyAttr),
            ErrorKind::WrongSecVersion => Some(errSecWrongSecVersion),
            ErrorKind::CFError { .. } => None,
            ErrorKind::OSError { .. } => None,
        }
    }

    /// A short description of the kind.
    pub fn to_string(&self) -> (r: String)
        ensures
            r@ == self.display(),
    {
        match self {
            ErrorKind::AuthFailed => "authentication failed".to_owned(),
            ErrorKind::BufferTooSmall => "buffer too small".to_owned(),
            ErrorKind::CreateChainFailed => "certificate chain creation attempt failed".to_owned(),
            ErrorKind::DataTooLarge => "data too large".to_owned(),
            ErrorKind::DataNotAvailable => "data not available".to_owned(),
            ErrorKind::DataNotModifiable => "data not modifiable".to_owned(),
            ErrorKind::DuplicateCallback => "duplicate callback".to_owned(),
            ErrorKind::DuplicateItem => "duplicate item".to_owned(),
            ErrorKind::DuplicateKeychain => "duplicate keychain".to_owned(),
            ErrorKind::InDarkWake => "in dark wake".to_owned(),
            ErrorKind::InteractionNotAllowed => "interaction not allowed".to_owned(),
            ErrorKind::InteractionRequired => "user interaction required".to_owned(),
            ErrorKind::InvalidCallback => "invalid callback".to_owned(),
            ErrorKind::InvalidItemRef => "invalid item ref".to_owned(),
            ErrorKind::InvalidKeychain => "invalid keychain".to_owned(),
            ErrorKind::InvalidPrefsDomain => "invalid preference domain".to_owned(),
            ErrorKind::InvalidSearchRef => "search ref is invalid".to_owned(),
            ErrorKind::ItemNotFound => "item not found".to_owned(),
            ErrorKind::KeySizeNotAllowed => "key size not allowed".to_owned(),
            ErrorKind::MissingEntitlement => {
                "missing application entitlement (errSecMissingEntitlement)".to_owned()
            },
            ErrorKind::NoCertificateModule => "no certificate module".to_owned(),
            ErrorKind::NoDefaultKeychain => "no default keychain".to_owned(),
            ErrorKind::NoPolicyModule => "no policy module".to_owned(),
            ErrorKind::NoStorageModule => "no storage module".to_owned(),
            ErrorKind::NoSuchAttr => "no such attr".to_owned(),
            ErrorKind::NoSuchClass => "no such class".to_owned(),
            ErrorKind::NoSuchKeychain => "no such keychain".to_owned(),
            ErrorKind::NotAvailable => "not available".to_owned(),
            ErrorKind::ReadOnly => "read-only".to_owned(),
            ErrorKind::ReadOnlyAttr => "read-only attr".to_owned(),
            ErrorKind::WrongSecVersion => "wrong version".to_owned(),
            ErrorKind::CFError { code, domain } => {
                let mut text = "Core Foundation error (code: ".to_owned();
                text.append(decimal_string(*code).as_str());
                text.append(", domain: ");
                text.append(domain.as_str());
                text.append(")");
                text
            },
            ErrorKind::OSError { code } => {
                let mut text = "unknown OS error (code: ".to_owned();
                text.append(decimal_string(*code).as_str());
                text.append(")");
                text
            },
        }
    }

    /// No two kinds stand for the same status code.
    pub proof fn lemma_status_injective(a: ErrorKind, b: ErrorKind)
        requires
            a.status() is Some,
            a.status() == b.status(),
        ensures
            a == b,
    {
    }

    /// Every kind but the two that carry a code of their own stands for one status
    /// code, and that code is not the code of success.
    pub proof fn lemma_status_total(kind: ErrorKind)
        ensures
            kind.status() is None <==> (kind is CFError || kind is OSError),
            kind.status() != Some(errSecSuccess),
    {
    }

    /// The kind of a status code that a kind stands for is that kind.
    pub proof fn lemma_of_status_round_trip(kind: ErrorKind)
        requires
            kind.status() is Some,
        ensures
            ErrorKind::of_status(kind.status().unwrap()) == kind,
    {
        let status = kind.status().unwrap();
        let found = choose|other: ErrorKind| other.status() == Some(status);
        Self::lemma_status_injective(kind, found);
    }

    /// The kind of a known status code stands for that code; the kind of any other is
    /// `OSError` with the code. No status code gives `CFError`.
    pub proof fn lemma_of_status_inverse(status: OSStatus)
        ensures
            ErrorKind::is_known(status) ==> ErrorKind::of_status(status).status() == Some(status),
            !ErrorKind::is_known(status) ==> ErrorKind::of_status(status) == (ErrorKind::OSError {
                code: status as i64,
            }),
            !(ErrorKind::of_status(status) is CFError),
    {
    }
}

impl From<OSStatus> for ErrorKind {
    /// Looks a status code up in the table of known codes.
    fn from(status: OSStatus) -> (r: ErrorKind)
        ensures
            r == ErrorKind::of_status(status),
    {
        let r = match status {
            errSecAuthFailed => ErrorKind::AuthFailed,
            errSecBufferTooSmall => ErrorKind::BufferTooSmall,
            errSecCreateChainFailed => ErrorKind::CreateChainFailed,
            errSecDataTooLarge => ErrorKind::DataTooLarge,
            errSecDataNotAvailable => ErrorKind::DataNotAvailable,
            errSecDataNotModifiable => ErrorKind::DataNotModifiable,
            errSecDuplicateCallback => ErrorKind::DuplicateCallback,
            errSecDuplicateItem => ErrorKind::DuplicateItem,
            errSecDuplicateKeychain => ErrorKind::DuplicateKeychain,
            errSecInDarkWake => ErrorKind::InDarkWake,
            errSecInteractionNotAllowed => ErrorKind::InteractionNotAllowed,
            errSecInteractionRequired => ErrorKind::InteractionRequired,
            errSecInvalidCallback => ErrorKind::InvalidCallback,
            errSecInvalidItemRef => ErrorKind::InvalidItemRef,
            errSecInvalidKeychain => ErrorKind::InvalidKeychain,
            errSecInvalidPrefsDomain => ErrorKind::InvalidPrefsDomain,
            errSecInvalidSearchRef => ErrorKind::InvalidSearchRef,
            errSecItemNotFound => ErrorKind::ItemNotFound,
            errSecKeySizeNotAllowed => ErrorKind::KeySizeNotAllowed,
            errSecMissingEntitlement => ErrorKind::MissingEntitlement,
            errSecNoCertificateModule => ErrorKind::NoCertificateModule,
            errSecNoDefaultKeychain => ErrorKind::NoDefaultKeychain,
            errSecNoPolicyModule => ErrorKind::NoPolicyModule,
            errSecNoStorageModule => ErrorKind::NoStorageModule,
            errSecNoSuchAttr => ErrorKind::NoSuchAttr,
            errSecNoSuchClass => ErrorKind::NoSuchClass,
            errSecNoSuchKeychain => ErrorKind::NoSuchKeychain,
            errSecNotAvailable => ErrorKind::NotAvailable,
            errSecReadOnly => ErrorKind::ReadOnly,
            errSecReadOnlyAttr => ErrorKind::ReadOnlyAttr,
            errSecWrongSecVersion => ErrorKind::WrongSecVersion,
            _ => ErrorKind::OSError { code: status as i64 },
        };
        proof {
            if r.status() is Some {
                let found = choose|other: ErrorKind| other.status() == Some(status);
                ErrorKind::lemma_status_injective(r, found);
            }
        }
        r
    }
}

impl FromSpecImpl<OSStatus> for ErrorKind {
    open spec fn obeys_from_spec() -> bool {
        true
    }

    open spec fn from_spec(status: OSStatus) -> ErrorKind {
        ErrorKind::of_status(status)
    }
}

impl ErrorKind {
    /// The kind of an error object: always `CFError`, with the object's code and
    /// domain, also where the code is the number of a known status code.
    pub fn from_cf_error(error: &CFError) -> (r: ErrorKind)
        ensures
            r.is_cf_error(error.code, error.domain@),
    {
        ErrorKind::CFError { code: error.code, domain: error.domain.clone() }
    }
}

/// The `Backtrace` of the crate `failure`: the call stack at some point of the program.
#[verifier::external_type_specification]
#[verifier::external_body]
pub struct ExBacktrace(Backtrace);

/// `failure::Backtrace::new`: captures the call stack as it is now. Whether anything
/// is captured depends on the environment, so nothing is claimed of the result.
#[verifier::external_body]
fn capture_backtrace() -> (r: Backtrace) {
    Backtrace::new()
}

/// An error of the keychain service: its kind, the framework's description and the
/// call stack at the time the error was translated.
#[derive(Debug)]
pub struct Error {
    kind: ErrorKind,
    backtrace: Backtrace,
    description: String,
}

impl Error {
    /// The kind of this error.
    pub closed spec fn spec_kind(&self) -> ErrorKind {
        self.kind
    }

    /// The framework's description of this error.
    pub closed spec fn spec_description(&self) -> Seq<char> {
        self.description@
    }

    /// The call stack that this error holds: the one captured when the error was
    /// made.
    pub closed spec fn spec_backtrace(&self) -> Backtrace {
        self.backtrace
    }

    /// Whether this error is the translation of a status code that the framework
    /// described with the given message.
    pub open spec fn translates_status(&self, status: OSStatus, message: Seq<char>) -> bool {
        &&& self.spec_kind() == ErrorKind::of_status(status)
        &&& self.spec_description() == message
    }

    /// Whether this error is the translation of an error object.
    pub open spec fn translates_object(&self, object: CFError) -> bool {
        &&& self.spec_kind().is_cf_error(object.code, object.domain@)
        &&& self.spec_description() == object.description@
    }

    /// An error of the given kind and description.
    pub fn new(kind: ErrorKind, description: &str) -> (r: Error)
        ensures
            r.spec_kind() == kind,
            r.spec_description() == description@,
    {
        Error { kind, backtrace: capture_backtrace(), description: description.to_owned() }
    }

    /// Whether this error says that an attribute of the given kind is missing.
    pub open spec fn is_missing_attribute(&self, kind: AttrKind) -> bool {
        &&& self.spec_kind() == ErrorKind::NoSuchAttr
        &&& self.spec_description() == "missing attribute "@ + kind.name()
    }

    /// The error for an attribute that is asked for and is not there: `NoSuchAttr`,
    /// described by the name of the attribute's kind.
    pub fn missing_attribute(kind: AttrKind) -> (r: Error)
        ensures
            r.is_missing_attribute(kind),
    {
        let mut description = "missing attribute ".to_owned();
        description.append(kind.as_str());
        Error::new(ErrorKind::NoSuchAttr, description.as_str())
    }

    /// Translates a status code: no error for success, and for every other code the
    /// error of the code's kind with the description that the framework gives for the
    /// code.
    #[allow(non_snake_case)]
    pub fn maybe_from_OSStatus(status: OSStatus, description: &str) -> (r: Option<Error>)
        ensures
            r is None <==> status == errSecSuccess,
            r matches Some(error) ==> error.translates_status(status, description@),
    {
        if status == errSecSuccess {
            None
        } else {
            Some(Error::new(ErrorKind::from(status), description))
        }
    }

    /// Translates an error object: the kind is `CFError` with the object's code and
    /// domain, and the description is the object's.
    pub fn from_cf_error(error: &CFError) -> (r: Error)
        ensures
            r.translates_object(*error),
    {
        Error::new(ErrorKind::from_cf_error(error), error.description.as_str())
    }

    /// The kind of this error.
    pub fn kind(&self) -> (r: &ErrorKind)
        ensures
            *r == self.spec_kind(),
    {
        &self.kind
    }

    /// The framework's description of this error, word for word.
    pub fn description(&self) -> (r: &str)
        ensures
            r@ == self.spec_description(),
    {
        self.description.as_str()
    }

    /// The call stack at the time this error was translated: the one that this error
    /// holds, not a new capture.
    pub fn backtrace(&self) -> (r: &Backtrace)
        ensures
            *r == self.spec_backtrace(),
    {
        &self.backtrace
    }

    /// The description, followed by the kind in parentheses.
    pub fn to_string(&self) -> (r: String)
        ensures
            r@ == self.spec_description() + " ("@ + self.spec_kind().display() + ")"@,
    {
        let mut text = self.description.clone();
        text.append(" (");
        text.append(self.kind.to_string().as_str());
        text.append(")");
        text
    }
}

} // verus!
