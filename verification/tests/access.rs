use keychain_services::{
    AccessConjunction, AccessConstraint, AccessControl, AccessControlFlag, AccessControlFlags,
    AccessOption, AttrAccessible, CFError, Call, Constant, ErrorKind, Handle, Value,
};
use keychain_services::TAttr;

#[test]
fn each_flag_has_the_bit_of_the_framework() {
    assert_eq!(AccessConstraint::UserPresence.bits(), 1);
    assert_eq!(AccessConstraint::BiometryAny.bits(), 1 << 1);
    assert_eq!(AccessConstraint::BiometryCurrentSet.bits(), 1 << 3);
    assert_eq!(AccessConstraint::DevicePasscode.bits(), 1 << 4);
    assert_eq!(AccessConjunction::Or.bits(), 1 << 14);
    assert_eq!(AccessConjunction::And.bits(), 1 << 15);
    assert_eq!(AccessOption::PrivateKeyUsage.bits(), 1 << 30);
    assert_eq!(AccessOption::ApplicationPassword.bits(), 1 << 31);
    assert_eq!(u64::from(AccessConstraint::DevicePasscode), 16);
    assert_eq!(u64::from(AccessConjunction::And), 32768);
    assert_eq!(u64::from(AccessOption::ApplicationPassword), 2147483648);
}

#[test]
fn no_flag_is_zero() {
    assert_eq!(AccessControlFlags::new().bits(), 0);
    assert_eq!(AccessControlFlags::default().bits(), 0);
    assert_eq!(AccessControlFlags::new(), AccessControlFlags::default());
}

#[test]
fn flags_of_the_three_categories_combine() {
    let mut flags = AccessControlFlags::new();
    flags.add(AccessConstraint::BiometryAny);
    flags.add(AccessConjunction::Or);
    flags.add(AccessConstraint::DevicePasscode);
    flags.add(AccessOption::PrivateKeyUsage);
    assert_eq!(flags.bits(), 0x2 | 0x4000 | 0x10 | 0x4000_0000);
    assert!(flags.contains(AccessConstraint::BiometryAny));
    assert!(flags.contains(AccessConjunction::Or));
    assert!(!flags.contains(AccessConjunction::And));
    assert!(!flags.contains(AccessConstraint::UserPresence));
    assert!(!flags.contains(AccessOption::ApplicationPassword));
}

#[test]
fn adding_a_flag_twice_changes_nothing() {
    let mut once = AccessControlFlags::new();
    once.add(AccessConstraint::UserPresence);
    let mut twice = once;
    twice.add(AccessConstraint::UserPresence);
    assert_eq!(once, twice);
    assert_eq!(twice.bits(), 1);
}

#[test]
fn all_flags_together() {
    let mut flags = AccessControlFlags::from_flags(&[
        AccessConstraint::UserPresence,
        AccessConstraint::BiometryAny,
        AccessConstraint::BiometryCurrentSet,
        AccessConstraint::DevicePasscode,
    ]);
    assert_eq!(flags.bits(), 0x1B);
    flags.add(AccessConjunction::And);
    flags.add(AccessConjunction::Or);
    flags.add(AccessOption::PrivateKeyUsage);
    flags.add(AccessOption::ApplicationPassword);
    assert_eq!(flags.bits(), 0xC000_C01B);
}

#[test]
fn flags_from_a_slice() {
    let none: [AccessOption; 0] = [];
    assert_eq!(AccessControlFlags::from_flags(&none).bits(), 0);
    let flags = AccessControlFlags::from_flags(&[AccessConjunction::And, AccessConjunction::And]);
    assert_eq!(flags.bits(), 0x8000);
}

#[test]
fn a_policy_is_made_from_the_constant_and_the_packed_flags() {
    let mut flags = AccessControlFlags::new();
    flags.add(AccessConstraint::BiometryCurrentSet);
    flags.add(AccessOption::PrivateKeyUsage);
    let call = AccessControl::create_with_flags(AttrAccessible::WhenUnlockedThisDeviceOnly, flags);
    assert_eq!(
        call,
        Call::AccessControlCreateWithFlags {
            protection: Constant::AttrAccessibleWhenUnlockedThisDeviceOnly,
            flags: 0x4000_0008,
        }
    );
    let call = AccessControl::create_with_flags(AttrAccessible::WhenUnlocked, Default::default());
    assert_eq!(
        call,
        Call::AccessControlCreateWithFlags {
            protection: Constant::AttrAccessibleWhenUnlocked,
            flags: 0,
        }
    );
}

#[test]
fn a_policy_without_an_error_object_is_the_reference() {
    let policy = AccessControl::finish_create_with_flags(Handle::new(0x1000), None).unwrap();
    assert_eq!(policy.handle(), Handle::new(0x1000));
    assert_eq!(policy.as_CFType(), Value::AccessControl(Handle::new(0x1000)));
}

#[test]
fn a_policy_with_an_error_object_is_the_error() {
    let object = CFError {
        code: -50,
        domain: String::from("NSOSStatusErrorDomain"),
        description: String::from("bad flags"),
    };
    let error =
        AccessControl::finish_create_with_flags(Handle::new(0x1000), Some(&object)).unwrap_err();
    assert_eq!(
        *error.kind(),
        ErrorKind::CFError { code: -50, domain: String::from("NSOSStatusErrorDomain") }
    );
    assert_eq!(error.description(), "bad flags");
}
