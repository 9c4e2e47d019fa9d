//! Access control: the policy that says when and how a private key may be used.

use crate::attr::{AttrAccessible, AttrKind, TAttr};
use crate::call::{Call, CallView};
use crate::dictionary::{Value, ValueView};
use crate::error::{CFError, Error};
use crate::handle::Handle;
use vstd::prelude::*;
use vstd::std_specs::convert::FromSpecImpl;

verus! {

/// A constraint on access to a keychain item.
#[derive(Clone, Copy, Debug, PartialEq, Eq, PartialOrd, Ord, Hash, Structural)]
pub enum AccessConstraint {
    /// The user is present: passcode or biometry (`kSecAccessControlUserPresence`).
    UserPresence,
    /// Biometry of any enrolled user (`kSecAccessControlBiometryAny`).
    BiometryAny,
    /// Biometry of the users enrolled now (`kSecAccessControlBiometryCurrentSet`).
    BiometryCurrentSet,
    /// The device passcode (`kSecAccessControlDevicePasscode`).
    DevicePasscode,
}

/// How several constraints combine.
#[derive(Clone, Copy, Debug, PartialEq, Eq, PartialOrd, Ord, Hash, Structural)]
pub enum AccessConjunction {
    /// All constraints have to be met (`kSecAccessControlAnd`).
    And,
    /// One constraint has to be met (`kSecAccessControlOr`).
    Or,
}

/// A further option of access control.
#[derive(Clone, Copy, Debug, PartialEq, Eq, PartialOrd, Ord, Hash, Structural)]
pub enum AccessOption {
    /// The private key is used inside the Secure Enclave
    /// (`kSecAccessControlPrivateKeyUsage`).
    PrivateKeyUsage,
    /// The item is encrypted under a password that the application gives
    /// (`kSecAccessControlApplicationPassword`).
    ApplicationPassword,
}

/// Any one flag of access control, of whichever of the three categories.
#[derive(Clone, Copy, Debug, PartialEq, Eq, Hash, Structural)]
pub enum AccessFlag {
    /// A constraint.
    Constraint(AccessConstraint),
    /// A conjunction.
    Conjunction(AccessConjunction),
    /// An option.
    Option(AccessOption),
}

impl AccessFlag {
    /// The bit of this flag in `SecAccessControlCreateFlags`. The positions are the
    /// framework's and are not free to change.
    pub open spec fn mask(self) -> u64 {
        match self {
            AccessFlag::Constraint(AccessConstraint::UserPresence) => 0x1,
            AccessFlag::Constraint(AccessConstraint::BiometryAny) => 0x2,
            AccessFlag::Constraint(AccessConstraint::BiometryCurrentSet) => 0x8,
            AccessFlag::Constraint(AccessConstraint::DevicePasscode) => 0x10,
            AccessFlag::Conjunction(AccessConjunction::Or) => 0x4000,
            AccessFlag::Conjunction(AccessConjunction::And) => 0x8000,
            AccessFlag::Option(AccessOption::PrivateKeyUsage) => 0x4000_0000,
            AccessFlag::Option(AccessOption::ApplicationPassword) => 0x8000_0000,
        }
    }
}

/// The bits of all flags together.
pub const ALL_FLAGS: u64 = 0xC000_C01B;

/// The bit of a flag if the flag is in a set, and no bit if it is not.
pub open spec fn bit_of(flags: Set<AccessFlag>, flag: AccessFlag) -> u64 {
    if flags.contains(flag) {
        flag.mask()
    } else {
        0
    }
}

/// The bit-packed form of a set of flags: the union of their bits.
pub open spec fn pack(flags: Set<AccessFlag>) -> u64 {
    bit_of(flags, AccessFlag::Constraint(AccessConstraint::UserPresence))
        | bit_of(flags, AccessFlag::Constraint(AccessConstraint::BiometryAny))
        | bit_of(flags, AccessFlag::Constraint(AccessConstraint::BiometryCurrentSet))
        | bit_of(flags, AccessFlag::Constraint(AccessConstraint::DevicePasscode))
        | bit_of(flags, AccessFlag::Conjunction(AccessConjunction::Or))
        | bit_of(flags, AccessFlag::Conjunction(AccessConjunction::And))
        | bit_of(flags, AccessFlag::Option(AccessOption::PrivateKeyUsage))
        | bit_of(flags, AccessFlag::Option(AccessOption::ApplicationPassword))
}

/// The set of flags whose bits are set in a bit-packed value.
pub open spec fn unpack(bits: u64) -> Set<AccessFlag> {
    Set::new(|flag: AccessFlag| bits & flag.mask() != 0)
}

/// A type that is one of the categories of access control flags.
pub trait AccessControlFlag: Copy + Clone + Sized {
    /// This flag among the flags of all categories.
    spec fn flag(self) -> AccessFlag;

    /// The bit of this flag.
    fn bits(self) -> (r: u64)
        ensures
            r == self.flag().mask(),
    ;
}

impl AccessControlFlag for AccessConstraint {
    open spec fn flag(self) -> AccessFlag {
        AccessFlag::Constraint(self)
    }

    fn bits(self) -> (r: u64) {
        match self {
            AccessConstraint::UserPresence => 0x1,
            AccessConstraint::BiometryAny => 0x2,
            AccessConstraint::BiometryCurrentSet => 0x8,
            AccessConstraint::DevicePasscode => 0x10,
        }
    }
}

impl AccessControlFlag for AccessConjunction {
    open spec fn flag(self) -> AccessFlag {
        AccessFlag::Conjunction(self)
    }

    fn bits(self) -> (r: u64) {
        match self {
            AccessConjunction::Or => 0x4000,
            AccessConjunction::And => 0x8000,
        }
    }
}

impl AccessControlFlag for AccessOption {
    open spec fn flag(self) -> AccessFlag {
        AccessFlag::Option(self)
    }

    fn bits(self) -> (r: u64) {
        match self {
            AccessOption::PrivateKeyUsage => 0x4000_0000,
            AccessOption::ApplicationPassword => 0x8000_0000,
        }
    }
}

impl From<AccessConstraint> for u64 {
    fn from(constraint: AccessConstraint) -> (r: u64)
        ensures
            r == AccessFlag::Constraint(constraint).mask(),
    {
        constraint.bits()
    }
}

impl FromSpecImpl<AccessConstraint> for u64 {
    open spec fn obeys_from_spec() -> bool {
        true
    }

    open spec fn from_spec(constraint: AccessConstraint) -> u64 {
        AccessFlag::Constraint(constraint).mask()
    }
}

impl From<AccessConjunction> for u64 {
    fn from(conjunction: AccessConjunction) -> (r: u64)
        ensures
            r == AccessFlag::Conjunction(conjunction).mask(),
    {
        conjunction.bits()
    }
}

impl FromSpecImpl<AccessConjunction> for u64 {
    open spec fn obeys_from_spec() -> bool {
        true
    }

    open spec fn from_spec(conjunction: AccessConjunction) -> u64 {
        AccessFlag::Conjunction(conjunction).mask()
    }
}

impl From<AccessOption> for u64 {
    fn from(option: AccessOption) -> (r: u64)
        ensures
            r == AccessFlag::Option(option).mask(),
    {
        option.bits()
    }
}

impl FromSpecImpl<AccessOption> for u64 {
    open spec fn obeys_from_spec() -> bool {
        true
    }

    open spec fn from_spec(option: AccessOption) -> u64 {
        AccessFlag::Option(option).mask()
    }
}

/// Setting the bit of one flag sets that flag and no other.
proof fn lemma_set_bit(bits: u64, added: u64, asked: u64)
    by (bit_vector)
    requires
        added == 0x1 || added == 0x2 || added == 0x8 || added == 0x10 || added == 0x4000 || added
            == 0x8000 || added == 0x4000_0000 || added == 0x8000_0000,
        asked == 0x1 || asked == 0x2 || asked == 0x8 || asked == 0x10 || asked == 0x4000 || asked
            == 0x8000 || asked == 0x4000_0000 || asked == 0x8000_0000,
    ensures
        ((bits | added) & asked != 0) == ((bits & asked != 0) || added == asked),
        bits & !0xC000_C01Bu64 == 0 ==> (bits | added) & !0xC000_C01Bu64 == 0,
{
}

/// A value with no bit outside the flags is the union of the bits of the flags that
/// are set in it.
proof fn lemma_pack_bits(bits: u64)
    by (bit_vector)
    requires
        bits & !0xC000_C01Bu64 == 0,
    ensures
        bits == (if bits & 0x1 != 0 { 0x1u64 } else { 0 })
            | (if bits & 0x2 != 0 { 0x2u64 } else { 0 })
            | (if bits & 0x8 != 0 { 0x8u64 } else { 0 })
            | (if bits & 0x10 != 0 { 0x10u64 } else { 0 })
            | (if bits & 0x4000 != 0 { 0x4000u64 } else { 0 })
            | (if bits & 0x8000 != 0 { 0x8000u64 } else { 0 })
            | (if bits & 0x4000_0000 != 0 { 0x4000_0000u64 } else { 0 })
            | (if bits & 0x8000_0000 != 0 { 0x8000_0000u64 } else { 0 }),
{
}

/// In the union of the bits of some flags, the bit of a flag is set exactly if the
/// flag is among them.
proof fn lemma_packed_bit(
    b0: bool,
    b1: bool,
    b2: bool,
    b3: bool,
    b4: bool,
    b5: bool,
    b6: bool,
    b7: bool,
    packed: u64,
)
    by (bit_vector)
    requires
        packed == (if b0 { 0x1u64 } else { 0 })
            | (if b1 { 0x2u64 } else { 0 })
            | (if b2 { 0x8u64 } else { 0 })
            | (if b3 { 0x10u64 } else { 0 })
            | (if b4 { 0x4000u64 } else { 0 })
            | (if b5 { 0x8000u64 } else { 0 })
            | (if b6 { 0x4000_0000u64 } else { 0 })
            | (if b7 { 0x8000_0000u64 } else { 0 }),
    ensures
        (packed & 0x1 != 0) == b0,
        (packed & 0x2 != 0) == b1,
        (packed & 0x8 != 0) == b2,
        (packed & 0x10 != 0) == b3,
        (packed & 0x4000 != 0) == b4,
        (packed & 0x8000 != 0) == b5,
        (packed & 0x4000_0000 != 0) == b6,
        (packed & 0x8000_0000 != 0) == b7,
        packed & !0xC000_C01Bu64 == 0,
{
}

/// Packing a set of flags into bits loses nothing: unpacking the bits gives the set
/// again, and the bits hold nothing but flags.
pub proof fn lemma_unpack_pack(flags: Set<AccessFlag>)
    ensures
        unpack(pack(flags)) == flags,
        pack(flags) & !ALL_FLAGS == 0,
{
    lemma_packed_bit(
        flags.contains(AccessFlag::Constraint(AccessConstraint::UserPresence)),
        flags.contains(AccessFlag::Constraint(AccessConstraint::BiometryAny)),
        flags.contains(AccessFlag::Constraint(AccessConstraint::BiometryCurrentSet)),
        flags.contains(AccessFlag::Constraint(AccessConstraint::DevicePasscode)),
        flags.contains(AccessFlag::Conjunction(AccessConjunction::Or)),
        flags.contains(AccessFlag::Conjunction(AccessConjunction::And)),
        flags.contains(AccessFlag::Option(AccessOption::PrivateKeyUsage)),
        flags.contains(AccessFlag::Option(AccessOption::ApplicationPassword)),
        pack(flags),
    );
    assert forall|flag: AccessFlag| unpack(pack(flags)).contains(flag) == flags.contains(flag) by {
        match flag {
            AccessFlag::Constraint(AccessConstraint::UserPresence) => {},
            AccessFlag::Constraint(AccessConstraint::BiometryAny) => {},
            AccessFlag::Constraint(AccessConstraint::BiometryCurrentSet) => {},
            AccessFlag::Constraint(AccessConstraint::DevicePasscode) => {},
            AccessFlag::Conjunction(AccessConjunction::Or) => {},
            AccessFlag::Conjunction(AccessConjunction::And) => {},
            AccessFlag::Option(AccessOption::PrivateKeyUsage) => {},
            AccessFlag::Option(AccessOption::ApplicationPassword) => {},
        }
    }
}

/// Two sets of flags with the same bits are the same set.
pub proof fn lemma_pack_injective(a: Set<AccessFlag>, b: Set<AccessFlag>)
    requires
        pack(a) == pack(b),
    ensures
        a == b,
{
    lemma_unpack_pack(a);
    lemma_unpack_pack(b);
}

/// A set of access control flags, bit-packed as the framework takes it
/// (`SecAccessControlCreateFlags`). Which flags go together is not checked here: the
/// framework alone says which combinations it accepts.
#[derive(Clone, Copy, Debug, PartialEq, Eq)]
pub struct AccessControlFlags {
    bits: u64,
}

impl View for AccessControlFlags {
    type V = Set<AccessFlag>;

    closed spec fn view(&self) -> Set<AccessFlag> {
        unpack(self.bits)
    }
}

impl AccessControlFlags {
    #[verifier::type_invariant]
    closed spec fn only_flags(self) -> bool {
        self.bits & !ALL_FLAGS == 0
    }

    /// No flag.
    pub fn new() -> (r: AccessControlFlags)
        ensures
            r@ == Set::<AccessFlag>::empty(),
    {
        proof {
            assert(0u64 & !0xC000_C01Bu64 == 0) by (bit_vector);
        }
        let r = AccessControlFlags { bits: 0 };
        proof {
            assert forall|flag: AccessFlag| !unpack(0).contains(flag) by {
                let m = flag.mask();
                assert(0u64 & m == 0) by (bit_vector);
            }
        }
        r
    }

    /// Adds a flag to the set. A flag that is already there stays.
    pub fn add<F: AccessControlFlag>(&mut self, flag: F)
        ensures
            final(self)@ == old(self)@.insert(flag.flag()),
    {
        let bits = flag.bits();
        proof {
            use_type_invariant(&*self);
            lemma_set_bit(self.bits, bits, bits);
            assert forall|other: AccessFlag|
                unpack(self.bits | bits).contains(other) == unpack(self.bits).insert(
                    flag.flag(),
                ).contains(other) by {
                lemma_set_bit(self.bits, bits, other.mask());
            }
        }
        self.bits = self.bits | bits;
    }

    /// The set of the given flags, all of one category.
    pub fn from_flags<F: AccessControlFlag>(flags: &[F]) -> (r: AccessControlFlags)
        ensures
            r@ == Set::new(
                |flag: AccessFlag|
                    exists|i: int| 0 <= i < flags@.len() && #[trigger] flags@[i].flag() == flag,
            ),
    {
        let mut result = AccessControlFlags::new();
        let mut i: usize = 0;
        while i < flags.len()
            invariant
                i <= flags@.len(),
                result@ == Set::new(
                    |flag: AccessFlag|
                        exists|j: int| 0 <= j < i && #[trigger] flags@[j].flag() == flag,
                ),
            decreases flags@.len() - i,
        {
            result.add(flags[i]);
            i = i + 1;
        }
        result
    }

    /// Whether a flag is in the set.
    pub fn contains<F: AccessControlFlag>(&self, flag: F) -> (r: bool)
        ensures
            r == self@.contains(flag.flag()),
    {
        self.bits & flag.bits() != 0
    }

    /// The set in its bit-packed form, as the framework takes it.
    pub fn bits(&self) -> (r: u64)
        ensures
            r == pack(self@),
    {
        proof {
            use_type_invariant(self);
            lemma_pack_bits(self.bits);
        }
        self.bits
    }
}

impl Default for AccessControlFlags {
    fn default() -> (r: AccessControlFlags)
        ensures
            r@ == Set::<AccessFlag>::empty(),
    {
        AccessControlFlags::new()
    }
}

/// An access control policy: an accessibility level together with a set of flags,
/// made by the framework and known to the library only by its reference.
#[derive(Clone, Copy, Debug, PartialEq, Eq, Hash, Structural)]
pub struct AccessControl {
    handle: Handle,
}

impl AccessControl {
    /// The reference of the policy.
    pub closed spec fn spec_handle(self) -> Handle {
        self.handle
    }

    /// Says how a policy is made: by `SecAccessControlCreateWithFlags`, with the
    /// constant of the accessibility level and the flags in their bit-packed form.
    pub fn create_with_flags(protection: AttrAccessible, flags: AccessControlFlags) -> (r: Call)
        ensures
            r@ == (CallView::AccessControlCreateWithFlags {
                protection: protection.constant(),
                flags: pack(flags@),
            }),
    {
        Call::AccessControlCreateWithFlags {
            protection: protection.as_CFString(),
            flags: flags.bits(),
        }
    }

    /// Takes what `SecAccessControlCreateWithFlags` handed back. With an error object
    /// the result is the translated error and the reference is ignored; without one
    /// it is the policy of the reference.
    pub fn finish_create_with_flags(result: Handle, error: Option<&CFError>) -> (r: Result<
        AccessControl,
        Error,
    >)
        ensures
            match error {
                None => r matches Ok(policy) && policy.spec_handle() == result,
                Some(object) => r matches Err(translated) && translated.translates_object(*object),
            },
    {
        match error {
            None => Ok(AccessControl { handle: result }),
            Some(object) => Err(Error::from_cf_error(object)),
        }
    }

    /// The reference of the policy.
    pub fn handle(&self) -> (r: Handle)
        ensures
            r == self.spec_handle(),
    {
        self.handle
    }
}

impl TAttr for AccessControl {
    open spec fn spec_kind(&self) -> AttrKind {
        AttrKind::AccessControl
    }

    open spec fn spec_value(&self) -> ValueView {
        ValueView::AccessControl(self.spec_handle())
    }

    fn kind(&self) -> (r: AttrKind) {
        AttrKind::AccessControl
    }

    #[allow(non_snake_case)]
    fn as_CFType(&self) -> (r: Value) {
        Value::AccessControl(self.handle)
    }
}

} // verus!
