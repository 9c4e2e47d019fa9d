use keychain_services::error::{errSecItemNotFound, errSecSuccess};
use keychain_services::{CFError, Error, ErrorKind, OSStatus};
use std::collections::HashSet;

fn known() -> Vec<(OSStatus, ErrorKind, &'static str)> {
    vec![
        (-25293, ErrorKind::AuthFailed, "authentication failed"),
        (-25301, ErrorKind::BufferTooSmall, "buffer too small"),
        (-25318, ErrorKind::CreateChainFailed, "certificate chain creation attempt failed"),
        (-25302, ErrorKind::DataTooLarge, "data too large"),
        (-25316, ErrorKind::DataNotAvailable, "data not available"),
        (-25317, ErrorKind::DataNotModifiable, "data not modifiable"),
        (-25297, ErrorKind::DuplicateCallback, "duplicate callback"),
        (-25299, ErrorKind::DuplicateItem, "duplicate item"),
        (-25296, ErrorKind::DuplicateKeychain, "duplicate keychain"),
        (-25320, ErrorKind::InDarkWake, "in dark wake"),
        (-25308, ErrorKind::InteractionNotAllowed, "interaction not allowed"),
        (-25315, ErrorKind::InteractionRequired, "user interaction required"),
        (-25298, ErrorKind::InvalidCallback, "invalid callback"),
        (-25304, ErrorKind::InvalidItemRef, "invalid item ref"),
        (-25295, ErrorKind::InvalidKeychain, "invalid keychain"),
        (-25319, ErrorKind::InvalidPrefsDomain, "invalid preference domain"),
        (-25305, ErrorKind::InvalidSearchRef, "search ref is invalid"),
        (-25300, ErrorKind::ItemNotFound, "item not found"),
        (-25311, ErrorKind::KeySizeNotAllowed, "key size not allowed"),
        (-34018, ErrorKind::MissingEntitlement, "missing application entitlement (errSecMissingEntitlement)"),
        (-25313, ErrorKind::NoCertificateModule, "no certificate module"),
        (-25307, ErrorKind::NoDefaultKeychain, "no default keychain"),
        (-25314, ErrorKind::NoPolicyModule, "no policy module"),
        (-25312, ErrorKind::NoStorageModule, "no storage module"),
        (-25303, ErrorKind::NoSuchAttr, "no such attr"),
        (-25306, ErrorKind::NoSuchClass, "no such class"),
        (-25294, ErrorKind::NoSuchKeychain, "no such keychain"),
        (-25291, ErrorKind::NotAvailable, "not available"),
        (-25292, ErrorKind::ReadOnly, "read-only"),
        (-25309, ErrorKind::ReadOnlyAttr, "read-only attr"),
        (-25310, ErrorKind::WrongSecVersion, "wrong version"),
    ]
}

#[test]
fn status_of_success_is_no_error() {
    assert_eq!(errSecSuccess, 0);
    assert!(Error::maybe_from_OSStatus(0, "No error.").is_none());
}

#[test]
fn item_not_found_is_translated() {
    assert_eq!(errSecItemNotFound, -25300);
    let error = Error::maybe_from_OSStatus(
        -25300,
        "The specified item could not be found in the keychain.",
    )
    .unwrap();
    assert_eq!(*error.kind(), ErrorKind::ItemNotFound);
    assert_eq!(
        error.description(),
        "The specified item could not be found in the keychain."
    );
    assert_eq!(
        error.to_string(),
        "The specified item could not be found in the keychain. (item not found)"
    );
}

#[test]
fn every_known_status_code_has_its_kind() {
    let table = known();
    assert_eq!(table.len(), 31);
    let mut codes = HashSet::new();
    for (code, kind, _) in table {
        assert_eq!(ErrorKind::from(code), kind);
        assert_eq!(kind.status_code(), Some(code));
        assert!(codes.insert(code));
        let error = Error::maybe_from_OSStatus(code, "message").unwrap();
        assert_eq!(*error.kind(), kind);
    }
}

#[test]
fn every_known_kind_has_its_description() {
    for (_, kind, text) in known() {
        assert_eq!(kind.to_string(), text);
    }
}

#[test]
fn an_unknown_status_code_keeps_its_code() {
    for code in [0, 1, -1, -25290, -25321, -34017, -50, i32::MAX, i32::MIN] {
        assert_eq!(ErrorKind::from(code), ErrorKind::OSError { code: i64::from(code) });
    }
    let error = Error::maybe_from_OSStatus(-50, "One or more parameters passed to a function were not valid.").unwrap();
    assert_eq!(*error.kind(), ErrorKind::OSError { code: -50 });
    assert_eq!(error.kind().status_code(), None);
    assert_eq!(error.kind().to_string(), "unknown OS error (code: -50)");
    assert_eq!(
        error.to_string(),
        "One or more parameters passed to a function were not valid. (unknown OS error (code: -50))"
    );
}

#[test]
fn an_error_object_is_never_taken_for_a_status_code() {
    let object = CFError {
        code: -25300,
        domain: String::from("NSOSStatusErrorDomain"),
        description: String::from("The operation couldn\u{2019}t be completed."),
    };
    let kind = ErrorKind::from_cf_error(&object);
    assert_eq!(
        kind,
        ErrorKind::CFError { code: -25300, domain: String::from("NSOSStatusErrorDomain") }
    );
    assert_eq!(kind.status_code(), None);
    assert_eq!(
        kind.to_string(),
        "Core Foundation error (code: -25300, domain: NSOSStatusErrorDomain)"
    );
    let error = Error::from_cf_error(&object);
    assert_eq!(*error.kind(), kind);
    assert_eq!(error.description(), "The operation couldn\u{2019}t be completed.");
    assert_eq!(
        error.to_string(),
        "The operation couldn\u{2019}t be completed. (Core Foundation error (code: -25300, domain: NSOSStatusErrorDomain))"
    );
}

#[test]
fn numbers_are_written_in_decimal() {
    assert_eq!(ErrorKind::OSError { code: 0 }.to_string(), "unknown OS error (code: 0)");
    assert_eq!(
        ErrorKind::OSError { code: i64::MAX }.to_string(),
        "unknown OS error (code: 9223372036854775807)"
    );
    assert_eq!(
        ErrorKind::OSError { code: i64::MIN }.to_string(),
        "unknown OS error (code: -9223372036854775808)"
    );
}

#[test]
fn an_error_made_by_hand_keeps_kind_and_description() {
    let error = Error::new(ErrorKind::MissingEntitlement, "refused");
    assert_eq!(*error.kind(), ErrorKind::MissingEntitlement);
    assert_eq!(error.description(), "refused");
    assert_eq!(
        error.to_string(),
        "refused (missing application entitlement (errSecMissingEntitlement))"
    );
    let _ = error.backtrace();
}
