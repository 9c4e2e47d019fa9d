//! Attributes of keychain items: the keys under which they travel and their typed values.

use crate::constant::Constant;
use crate::dictionary::{Value, ValueView};
use crate::text::{from_utf8, from_utf8_lossy, utf8_lossy};
use core::str::Utf8Error;
use vstd::prelude::*;
use vstd::slice::slice_to_vec;
use vstd::std_specs::convert::FromSpecImpl;
use vstd::string::StringSliceAdditionalSpecFns;
use vstd::utf8::{decode_utf8, valid_utf8};

verus! {

/// A typed attribute: it knows the key it travels under and its value in a dictionary.
pub trait TAttr {
    /// The kind of this attribute.
    spec fn spec_kind(&self) -> AttrKind;

    /// The value that stands for this attribute in a dictionary.
    spec fn spec_value(&self) -> ValueView;

    /// The kind of this attribute, which gives the key.
    fn kind(&self) -> (r: AttrKind)
        ensures
            r == self.spec_kind(),
    ;

    /// The value to put under the key. It has the shape that the kind expects.
    #[allow(non_snake_case)]
    fn as_CFType(&self) -> (r: Value)
        ensures
            r@ == self.spec_value(),
            self.spec_kind().accepts(r@),
    ;
}

/// The attribute keys that the library knows.
#[derive(Clone, Copy, Debug, PartialEq, Eq, Hash, Structural)]
pub enum AttrKind {
    /// The access control policy of an item. Its value is an access control policy.
    AccessControl,
    /// When an item can be read. Its value is one of the accessibility constants.
    Accessible,
    /// The account that a password belongs to. Its value is a string.
    Account,
    /// The application label of a key: the fingerprint of its public key. Its value is raw bytes.
    ApplicationLabel,
    /// The application tag of a key: an identifier that the caller chose. Its value is raw bytes.
    ApplicationTag,
    /// Whether a key can derive other keys. Its value is a truth value.
    Derive,
    /// Whether a key can decrypt. Its value is a truth value.
    Decrypt,
    /// Whether a key can encrypt. Its value is a truth value.
    Encrypt,
    /// Whether a key can be exported. Its value is a truth value.
    Extractable,
    /// The class of a key: public, private or symmetric. Its value is one of the key class
    /// constants.
    KeyClass,
    /// The size of a key, in bits. Its value is a number.
    KeySizeInBits,
    /// The algorithm family of a key. Its value is one of the key type constants.
    KeyType,
    /// The label of an item, meant for people. Its value is a string.
    Label,
    /// Whether a key is stored in the keychain for good. Its value is a truth value.
    Permanent,
    /// The protocol of an internet password. Its value is one of the protocol constants.
    Protocol,
    /// Whether a key may leave the keychain only when wrapped. Its value is a truth value.
    Sensitive,
    /// The server of an internet password. Its value is a string.
    Server,
    /// The service of a generic password. Its value is a string.
    Service,
    /// Whether a key can sign. Its value is a truth value.
    Sign,
    /// Whether an item is synchronized between the devices of one account. Its value is a truth
    /// value.
    Synchronizable,
    /// The token that holds a key. Its value is one of the token constants.
    TokenId,
    /// Whether a key can unwrap other keys. Its value is a truth value.
    Unwrap,
    /// Whether a key can verify signatures. Its value is a truth value.
    Verify,
    /// Whether a key can wrap other keys. Its value is a truth value.
    Wrap,
}

impl AttrKind {
    /// The framework constant that is this attribute's key.
    pub open spec fn constant(self) -> Constant {
        match self {
            AttrKind::AccessControl => Constant::AttrAccessControl,
            AttrKind::Accessible => Constant::AttrAccessible,
            AttrKind::Account => Constant::AttrAccount,
            AttrKind::ApplicationLabel => Constant::AttrApplicationLabel,
            AttrKind::ApplicationTag => Constant::AttrApplicationTag,
            AttrKind::Derive => Constant::AttrCanDerive,
            AttrKind::Decrypt => Constant::AttrCanDecrypt,
            AttrKind::Encrypt => Constant::AttrCanEncrypt,
            AttrKind::Extractable => Constant::AttrIsExtractable,
            AttrKind::KeyClass => Constant::AttrKeyClass,
            AttrKind::KeySizeInBits => Constant::AttrKeySizeInBits,
            AttrKind::KeyType => Constant::AttrKeyType,
            AttrKind::Label => Constant::AttrLabel,
            AttrKind::Permanent => Constant::AttrIsPermanent,
            AttrKind::Protocol => Constant::AttrProtocol,
            AttrKind::Sensitive => Constant::AttrIsSensitive,
            AttrKind::Server => Constant::AttrServer,
            AttrKind::Service => Constant::AttrService,
            AttrKind::Sign => Constant::AttrCanSign,
            AttrKind::Synchronizable => Constant::AttrSynchronizable,
            AttrKind::TokenId => Constant::AttrTokenID,
            AttrKind::Unwrap => Constant::AttrCanUnwrap,
            AttrKind::Verify => Constant::AttrCanVerify,
            AttrKind::Wrap => Constant::AttrCanWrap,
        }
    }

    /// Whether a value has the shape that the framework expects under this
    /// attribute's key.
    pub open spec fn accepts(self, value: ValueView) -> bool {
        match self {
            AttrKind::AccessControl => value is AccessControl,
            AttrKind::Accessible => value matches ValueView::Constant(c)
                && AttrAccessible::is_constant(c),
            AttrKind::KeyClass => value matches ValueView::Constant(c) && AttrKeyClass::is_constant(
                c,
            ),
            AttrKind::KeyType => value matches ValueView::Constant(c) && AttrKeyType::is_constant(
                c,
            ),
            AttrKind::Protocol => value matches ValueView::Constant(c) && AttrProtocol::is_constant(
                c,
            ),
            AttrKind::TokenId => value matches ValueView::Constant(c) && AttrTokenId::is_constant(
                c,
            ),
            AttrKind::Account | AttrKind::Label | AttrKind::Server | AttrKind::Service => {
                value is String
            },
            AttrKind::ApplicationLabel | AttrKind::ApplicationTag => value is Data,
            AttrKind::KeySizeInBits => value is Number,
            AttrKind::Derive
            | AttrKind::Decrypt
            | AttrKind::Encrypt
            | AttrKind::Extractable
            | AttrKind::Permanent
            | AttrKind::Sensitive
            | AttrKind::Sign
            | AttrKind::Synchronizable
            | AttrKind::Unwrap
            | AttrKind::Verify
            | AttrKind::Wrap => value is Boolean,
        }
    }

    /// The name of this attribute kind.
    pub open spec fn name(self) -> Seq<char> {
        match self {
            AttrKind::AccessControl => "AccessControl"@,
            AttrKind::Accessible => "Accessible"@,
            AttrKind::Account => "Account"@,
            AttrKind::ApplicationLabel => "ApplicationLabel"@,
            AttrKind::ApplicationTag => "ApplicationTag"@,
            AttrKind::Derive => "Derive"@,
            AttrKind::Decrypt => "Decrypt"@,
            AttrKind::Encrypt => "Encrypt"@,
            AttrKind::Extractable => "Extractable"@,
            AttrKind::KeyClass => "KeyClass"@,
            AttrKind::KeySizeInBits => "KeySizeInBits"@,
            AttrKind::KeyType => "KeyType"@,
            AttrKind::Label => "Label"@,
            AttrKind::Permanent => "Permanent"@,
            AttrKind::Protocol => "Protocol"@,
            AttrKind::Sensitive => "Sensitive"@,
            AttrKind::Server => "Server"@,
            AttrKind::Service => "Service"@,
            AttrKind::Sign => "Sign"@,
            AttrKind::Synchronizable => "Synchronizable"@,
            AttrKind::TokenId => "TokenId"@,
            AttrKind::Unwrap => "Unwrap"@,
            AttrKind::Verify => "Verify"@,
            AttrKind::Wrap => "Wrap"@,
        }
    }

    /// The name of this attribute kind, for messages.
    pub fn as_str(self) -> (r: &'static str)
        ensures
            r@ == self.name(),
    {
        match self {
            AttrKind::AccessControl => "AccessControl",
            AttrKind::Accessible => "Accessible",
            AttrKind::Account => "Account",
            AttrKind::ApplicationLabel => "ApplicationLabel",
            AttrKind::ApplicationTag => "ApplicationTag",
            AttrKind::Derive => "Derive",
            AttrKind::Decrypt => "Decrypt",
            AttrKind::Encrypt => "Encrypt",
            AttrKind::Extractable => "Extractable",
            AttrKind::KeyClass => "KeyClass",
            AttrKind::KeySizeInBits => "KeySizeInBits",
            AttrKind::KeyType => "KeyType",
            AttrKind::Label => "Label",
            AttrKind::Permanent => "Permanent",
            AttrKind::Protocol => "Protocol",
            AttrKind::Sensitive => "Sensitive",
            AttrKind::Server => "Server",
            AttrKind::Service => "Service",
            AttrKind::Sign => "Sign",
            AttrKind::Synchronizable => "Synchronizable",
            AttrKind::TokenId => "TokenId",
            AttrKind::Unwrap => "Unwrap",
            AttrKind::Verify => "Verify",
            AttrKind::Wrap => "Wrap",
        }
    }

    /// The attribute kind whose key a framework constant is, if it is the key of one.
    pub open spec fn spec_from_tag(tag: Constant) -> Option<AttrKind> {
        if exists|kind: AttrKind| kind.constant() == tag {
            Some(choose|kind: AttrKind| kind.constant() == tag)
        } else {
            None
        }
    }

    /// Finds the attribute kind whose key a framework constant is, if it is the key of
    /// one.
    #[verifier::when_used_as_spec(spec_from_tag)]
    pub fn from_tag(tag: Constant) -> (r: Option<AttrKind>)
        ensures
            r == Self::spec_from_tag(tag),
            r matches Some(kind) ==> kind.constant() == tag,
            r is None ==> forall|kind: AttrKind| kind.constant() != tag,
    {
        let r = match tag {
            Constant::AttrAccessControl => Some(AttrKind::AccessControl),
            Constant::AttrAccessible => Some(AttrKind::Accessible),
            Constant::AttrAccount => Some(AttrKind::Account),
            Constant::AttrApplicationLabel => Some(AttrKind::ApplicationLabel),
            Constant::AttrApplicationTag => Some(AttrKind::ApplicationTag),
            Constant::AttrCanDerive => Some(AttrKind::Derive),
            Constant::AttrCanDecrypt => Some(AttrKind::Decrypt),
            Constant::AttrCanEncrypt => Some(AttrKind::Encrypt),
            Constant::AttrIsExtractable => Some(AttrKind::Extractable),
            Constant::AttrKeyClass => Some(AttrKind::KeyClass),
            Constant::AttrKeySizeInBits => Some(AttrKind::KeySizeInBits),
            Constant::AttrKeyType => Some(AttrKind::KeyType),
            Constant::AttrLabel => Some(AttrKind::Label),
            Constant::AttrIsPermanent => Some(AttrKind::Permanent),
            Constant::AttrProtocol => Some(AttrKind::Protocol),
            Constant::AttrIsSensitive => Some(AttrKind::Sensitive),
            Constant::AttrServer => Some(AttrKind::Server),
            Constant::AttrService => Some(AttrKind::Service),
            Constant::AttrCanSign => Some(AttrKind::Sign),
            Constant::AttrSynchronizable => Some(AttrKind::Synchronizable),
            Constant::AttrTokenID => Some(AttrKind::TokenId),
            Constant::AttrCanUnwrap => Some(AttrKind::Unwrap),
            Constant::AttrCanVerify => Some(AttrKind::Verify),
            Constant::AttrCanWrap => Some(AttrKind::Wrap),
            _ => None,
        };
        proof {
            if let Some(kind) = r {
                let found = choose|other: AttrKind| other.constant() == tag;
                Self::lemma_constant_injective(found, kind);
            }
        }
        r
    }

    /// Going from an attribute kind to its key and back gives the kind again.
    pub proof fn lemma_from_tag_round_trip(kind: AttrKind)
        ensures
            AttrKind::spec_from_tag(kind.constant()) == Some(kind),
    {
        let found = choose|other: AttrKind| other.constant() == kind.constant();
        Self::lemma_constant_injective(found, kind);
    }

    /// No two attribute kinds share a key.
    pub proof fn lemma_constant_injective(a: AttrKind, b: AttrKind)
        requires
            a.constant() == b.constant(),
        ensures
            a == b,
    {
    }
}

impl From<AttrKind> for Constant {
    /// The framework constant that is the attribute's key.
    fn from(kind: AttrKind) -> (r: Constant)
        ensures
            r == kind.constant(),
    {
        match kind {
            AttrKind::AccessControl => Constant::AttrAccessControl,
            AttrKind::Accessible => Constant::AttrAccessible,
            AttrKind::Account => Constant::AttrAccount,
            AttrKind::ApplicationLabel => Constant::AttrApplicationLabel,
            AttrKind::ApplicationTag => Constant::AttrApplicationTag,
            AttrKind::Derive => Constant::AttrCanDerive,
            AttrKind::Decrypt => Constant::AttrCanDecrypt,
            AttrKind::Encrypt => Constant::AttrCanEncrypt,
            AttrKind::Extractable => Constant::AttrIsExtractable,
            AttrKind::KeyClass => Constant::AttrKeyClass,
            AttrKind::KeySizeInBits => Constant::AttrKeySizeInBits,
            AttrKind::KeyType => Constant::AttrKeyType,
            AttrKind::Label => Constant::AttrLabel,
            AttrKind::Permanent => Constant::AttrIsPermanent,
            AttrKind::Protocol => Constant::AttrProtocol,
            AttrKind::Sensitive => Constant::AttrIsSensitive,
            AttrKind::Server => Constant::AttrServer,
            AttrKind::Service => Constant::AttrService,
            AttrKind::Sign => Constant::AttrCanSign,
            AttrKind::Synchronizable => Constant::AttrSynchronizable,
            AttrKind::TokenId => Constant::AttrTokenID,
            AttrKind::Unwrap => Constant::AttrCanUnwrap,
            AttrKind::Verify => Constant::AttrCanVerify,
            AttrKind::Wrap => Constant::AttrCanWrap,
        }
    }
}

impl FromSpecImpl<AttrKind> for Constant {
    open spec fn obeys_from_spec() -> bool {
        true
    }

    open spec fn from_spec(kind: AttrKind) -> Constant {
        kind.constant()
    }
}

/// When a keychain item can be read, from the most to the least restrictive.
#[derive(Clone, Copy, Debug, PartialEq, Eq, Hash, Structural)]
pub enum AttrAccessible {
    /// While the device is unlocked, on a device with a passcode. Stays on this device.
    WhenPasscodeSetThisDeviceOnly,
    /// While the device is unlocked. Stays on this device.
    WhenUnlockedThisDeviceOnly,
    /// While the device is unlocked.
    WhenUnlocked,
    /// From the first unlock after a restart on. Stays on this device.
    AfterFirstUnlockThisDeviceOnly,
    /// From the first unlock after a restart on.
    AfterFirstUnlock,
    /// Always. Stays on this device.
    AlwaysThisDeviceOnly,
    /// Always.
    Always,
}

impl AttrAccessible {
    /// The framework constant that stands for this value.
    pub open spec fn constant(self) -> Constant {
        match self {
            AttrAccessible::WhenPasscodeSetThisDeviceOnly => {
                Constant::AttrAccessibleWhenPasscodeSetThisDeviceOnly
            },
            AttrAccessible::WhenUnlockedThisDeviceOnly => {
                Constant::AttrAccessibleWhenUnlockedThisDeviceOnly
            },
            AttrAccessible::WhenUnlocked => Constant::AttrAccessibleWhenUnlocked,
            AttrAccessible::AfterFirstUnlockThisDeviceOnly => {
                Constant::AttrAccessibleAfterFirstUnlockThisDeviceOnly
            },
            AttrAccessible::AfterFirstUnlock => Constant::AttrAccessibleAfterFirstUnlock,
            AttrAccessible::AlwaysThisDeviceOnly => Constant::AttrAccessibleAlwaysThisDeviceOnly,
            AttrAccessible::Always => Constant::AttrAccessibleAlways,
        }
    }

    /// Whether a framework constant stands for one of these values.
    pub open spec fn is_constant(constant: Constant) -> bool {
        exists|value: AttrAccessible| value.constant() == constant
    }

    /// Gives the framework constant to hand over where this value is meant.
    #[allow(non_snake_case)]
    pub fn as_CFString(self) -> (r: Constant)
        ensures
            r == self.constant(),
            Self::is_constant(r),
    {
        match self {
            AttrAccessible::WhenPasscodeSetThisDeviceOnly => {
                Constant::AttrAccessibleWhenPasscodeSetThisDeviceOnly
            },
            AttrAccessible::WhenUnlockedThisDeviceOnly => {
                Constant::AttrAccessibleWhenUnlockedThisDeviceOnly
            },
            AttrAccessible::WhenUnlocked => Constant::AttrAccessibleWhenUnlocked,
            AttrAccessible::AfterFirstUnlockThisDeviceOnly => {
                Constant::AttrAccessibleAfterFirstUnlockThisDeviceOnly
            },
            AttrAccessible::AfterFirstUnlock => Constant::AttrAccessibleAfterFirstUnlock,
            AttrAccessible::AlwaysThisDeviceOnly => Constant::AttrAccessibleAlwaysThisDeviceOnly,
            AttrAccessible::Always => Constant::AttrAccessibleAlways,
        }
    }

    /// No two of these values share a framework constant.
    pub proof fn lemma_constant_injective(a: AttrAccessible, b: AttrAccessible)
        requires
            a.constant() == b.constant(),
        ensures
            a == b,
    {
    }
}

impl TAttr for AttrAccessible {
    open spec fn spec_kind(&self) -> AttrKind {
        AttrKind::Accessible
    }

    open spec fn spec_value(&self) -> ValueView {
        ValueView::Constant(self.constant())
    }

    fn kind(&self) -> (r: AttrKind) {
        AttrKind::Accessible
    }

    #[allow(non_snake_case)]
    fn as_CFType(&self) -> (r: Value) {
        Value::Constant(self.as_CFString())
    }
}

/// The application label of a key: the fingerprint of its public key, which both
/// keys of a pair carry. Not to be confused with [`AttrApplicationTag`] or
/// [`AttrLabel`].
#[derive(Clone, Debug, PartialEq, Eq)]
pub struct AttrApplicationLabel {
    bytes: Vec<u8>,
}

impl View for AttrApplicationLabel {
    type V = Seq<u8>;

    closed spec fn view(&self) -> Seq<u8> {
        self.bytes@
    }
}

impl AttrApplicationLabel {
    /// An application label of the given bytes.
    pub fn new(bytes: &[u8]) -> (r: AttrApplicationLabel)
        ensures
            r@ == bytes@,
    {
        AttrApplicationLabel { bytes: slice_to_vec(bytes) }
    }

    /// The bytes of the label.
    pub fn as_bytes(&self) -> (r: &[u8])
        ensures
            r@ == self@,
    {
        self.bytes.as_slice()
    }
}

impl AsRef<[u8]> for AttrApplicationLabel {
    fn as_ref(&self) -> (r: &[u8])
        ensures
            r@ == self@,
    {
        self.as_bytes()
    }
}

impl TAttr for AttrApplicationLabel {
    open spec fn spec_kind(&self) -> AttrKind {
        AttrKind::ApplicationLabel
    }

    open spec fn spec_value(&self) -> ValueView {
        ValueView::Data(self@)
    }

    fn kind(&self) -> (r: AttrKind) {
        AttrKind::ApplicationLabel
    }

    #[allow(non_snake_case)]
    fn as_CFType(&self) -> (r: Value) {
        Value::Data(slice_to_vec(self.bytes.as_slice()))
    }
}

/// The application tag of a key: an identifier that the caller chose, by which the
/// key is found again. Tags are bytes; by custom they are text such as a reversed
/// domain name.
#[derive(Clone, Debug, PartialEq, Eq)]
pub struct AttrApplicationTag {
    bytes: Vec<u8>,
}

impl View for AttrApplicationTag {
    type V = Seq<u8>;

    closed spec fn view(&self) -> Seq<u8> {
        self.bytes@
    }
}

impl AttrApplicationTag {
    /// An application tag of the given bytes.
    pub fn new(bytes: &[u8]) -> (r: AttrApplicationTag)
        ensures
            r@ == bytes@,
    {
        AttrApplicationTag { bytes: slice_to_vec(bytes) }
    }

    /// An application tag of the bytes of a text.
    pub fn from_str(tag: &str) -> (r: AttrApplicationTag)
        ensures
            r@ == tag.spec_bytes(),
    {
        AttrApplicationTag::new(tag.as_bytes())
    }

    /// The bytes of the tag.
    pub fn as_bytes(&self) -> (r: &[u8])
        ensures
            r@ == self@,
    {
        self.bytes.as_slice()
    }

    /// The tag as text, if its bytes are valid UTF-8, and the decoding error if not.
    pub fn as_str(&self) -> (r: Result<&str, Utf8Error>)
        ensures
            r is Ok <==> valid_utf8(self@),
            r matches Ok(text) ==> text.spec_bytes() == self@,
    {
        from_utf8(self.bytes.as_slice())
    }

    /// The tag as text for display: what is not UTF-8 is shown as U+FFFD.
    pub fn to_string(&self) -> (r: String)
        ensures
            r@ == utf8_lossy(self@),
            valid_utf8(self@) ==> r@ == decode_utf8(self@),
    {
        from_utf8_lossy(self.bytes.as_slice())
    }
}

impl AsRef<[u8]> for AttrApplicationTag {
    fn as_ref(&self) -> (r: &[u8])
        ensures
            r@ == self@,
    {
        self.as_bytes()
    }
}

impl TAttr for AttrApplicationTag {
    open spec fn spec_kind(&self) -> AttrKind {
        AttrKind::ApplicationTag
    }

    open spec fn spec_value(&self) -> ValueView {
        ValueView::Data(self@)
    }

    fn kind(&self) -> (r: AttrKind) {
        AttrKind::ApplicationTag
    }

    #[allow(non_snake_case)]
    fn as_CFType(&self) -> (r: Value) {
        Value::Data(slice_to_vec(self.bytes.as_slice()))
    }
}

/// The label of a keychain item: text that tells people what the item is.
#[derive(Clone, Debug, PartialEq, Eq)]
pub struct AttrLabel {
    text: String,
}

impl View for AttrLabel {
    type V = Seq<char>;

    closed spec fn view(&self) -> Seq<char> {
        self.text@
    }
}

impl AttrLabel {
    /// A label of the given text.
    pub fn new(label: &str) -> (r: AttrLabel)
        ensures
            r@ == label@,
    {
        AttrLabel { text: label.to_owned() }
    }

    /// The text of the label.
    pub fn as_str(&self) -> (r: &str)
        ensures
            r@ == self@,
    {
        self.text.as_str()
    }

    /// The text of the label, for display.
    pub fn to_string(&self) -> (r: String)
        ensures
            r@ == self@,
    {
        self.text.clone()
    }
}

impl TAttr for AttrLabel {
    open spec fn spec_kind(&self) -> AttrKind {
        AttrKind::Label
    }

    open spec fn spec_value(&self) -> ValueView {
        ValueView::String(self@)
    }

    fn kind(&self) -> (r: AttrKind) {
        AttrKind::Label
    }

    #[allow(non_snake_case)]
    fn as_CFType(&self) -> (r: Value) {
        Value::String(self.text.clone())
    }
}

/// The class of a key (not the class of a keychain item, nor the type of a key).
#[derive(Clone, Copy, Debug, PartialEq, Eq, Hash, Structural)]
pub enum AttrKeyClass {
    /// A public key.
    Public,
    /// A private key.
    Private,
    /// A symmetric key.
    Symmetric,
}

impl AttrKeyClass {
    /// The framework constant that stands for this value.
    pub open spec fn constant(self) -> Constant {
        match self {
            AttrKeyClass::Public => Constant::AttrKeyClassPublic,
            AttrKeyClass::Private => Constant::AttrKeyClassPrivate,
            AttrKeyClass::Symmetric => Constant::AttrKeyClassSymmetric,
        }
    }

    /// Whether a framework constant stands for one of these values.
    pub open spec fn is_constant(constant: Constant) -> bool {
        exists|value: AttrKeyClass| value.constant() == constant
    }

    /// Gives the framework constant to hand over where this value is meant.
    #[allow(non_snake_case)]
    pub fn as_CFString(self) -> (r: Constant)
        ensures
            r == self.constant(),
            Self::is_constant(r),
    {
        match self {
            AttrKeyClass::Public => Constant::AttrKeyClassPublic,
            AttrKeyClass::Private => Constant::AttrKeyClassPrivate,
            AttrKeyClass::Symmetric => Constant::AttrKeyClassSymmetric,
        }
    }

    /// No two of these values share a framework constant.
    pub proof fn lemma_constant_injective(a: AttrKeyClass, b: AttrKeyClass)
        requires
            a.constant() == b.constant(),
        ensures
            a == b,
    {
    }
}

impl TAttr for AttrKeyClass {
    open spec fn spec_kind(&self) -> AttrKind {
        AttrKind::KeyClass
    }

    open spec fn spec_value(&self) -> ValueView {
        ValueView::Constant(self.constant())
    }

    fn kind(&self) -> (r: AttrKind) {
        AttrKind::KeyClass
    }

    #[allow(non_snake_case)]
    fn as_CFType(&self) -> (r: Value) {
        Value::Constant(self.as_CFString())
    }
}

impl From<Constant> for AttrKeyClass {
    /// Reads a key class back from the constant that the framework reports. What is
    /// neither the public nor the private class is taken for symmetric.
    fn from(constant: Constant) -> (r: AttrKeyClass)
        ensures
            r == AttrKeyClass::of_constant(constant),
    {
        match constant {
            Constant::AttrKeyClassPublic => AttrKeyClass::Public,
            Constant::AttrKeyClassPrivate => AttrKeyClass::Private,
            _ => AttrKeyClass::Symmetric,
        }
    }
}

impl FromSpecImpl<Constant> for AttrKeyClass {
    open spec fn obeys_from_spec() -> bool {
        true
    }

    open spec fn from_spec(constant: Constant) -> AttrKeyClass {
        AttrKeyClass::of_constant(constant)
    }
}

impl AttrKeyClass {
    /// The key class that a framework constant is read as: the public or the private
    /// class for their constants, the symmetric class for every other.
    pub open spec fn of_constant(constant: Constant) -> AttrKeyClass {
        if constant == AttrKeyClass::Public.constant() {
            AttrKeyClass::Public
        } else if constant == AttrKeyClass::Private.constant() {
            AttrKeyClass::Private
        } else {
            AttrKeyClass::Symmetric
        }
    }

    /// Reading back the constant of a key class gives that class.
    pub proof fn lemma_of_constant_round_trip(class: AttrKeyClass)
        ensures
            AttrKeyClass::of_constant(class.constant()) == class,
    {
    }
}

/// The algorithm family of a key.
#[derive(Clone, Copy, Debug, PartialEq, Eq, Hash, Structural)]
pub enum AttrKeyType {
    /// AES.
    Aes,
    /// RSA.
    Rsa,
    /// Elliptic curves over prime fields, with the NIST curves such as P-256.
    EcSecPrimeRandom,
}

impl AttrKeyType {
    /// The framework constant that stands for this value.
    pub open spec fn constant(self) -> Constant {
        match self {
            AttrKeyType::Aes => Constant::AttrKeyTypeAES,
            AttrKeyType::Rsa => Constant::AttrKeyTypeRSA,
            AttrKeyType::EcSecPrimeRandom => Constant::AttrKeyTypeECSECPrimeRandom,
        }
    }

    /// Whether a framework constant stands for one of these values.
    pub open spec fn is_constant(constant: Constant) -> bool {
        exists|value: AttrKeyType| value.constant() == constant
    }

    /// Gives the framework constant to hand over where this value is meant.
    #[allow(non_snake_case)]
    pub fn as_CFString(self) -> (r: Constant)
        ensures
            r == self.constant(),
            Self::is_constant(r),
    {
        match self {
            AttrKeyType::Aes => Constant::AttrKeyTypeAES,
            AttrKeyType::Rsa => Constant::AttrKeyTypeRSA,
            AttrKeyType::EcSecPrimeRandom => Constant::AttrKeyTypeECSECPrimeRandom,
        }
    }

    /// No two of these values share a framework constant.
    pub proof fn lemma_constant_injective(a: AttrKeyType, b: AttrKeyType)
        requires
            a.constant() == b.constant(),
        ensures
            a == b,
    {
    }
}

impl TAttr for AttrKeyType {
    open spec fn spec_kind(&self) -> AttrKind {
        AttrKind::KeyType
    }

    open spec fn spec_value(&self) -> ValueView {
        ValueView::Constant(self.constant())
    }

    fn kind(&self) -> (r: AttrKind) {
        AttrKind::KeyType
    }

    #[allow(non_snake_case)]
    fn as_CFType(&self) -> (r: Value) {
        Value::Constant(self.as_CFString())
    }
}

impl From<Constant> for AttrKeyType {
    /// Reads a key type back from the constant that the framework reports. What is
    /// neither the elliptic-curve nor the RSA type is taken for AES.
    fn from(constant: Constant) -> (r: AttrKeyType)
        ensures
            r == AttrKeyType::of_constant(constant),
    {
        match constant {
            Constant::AttrKeyTypeECSECPrimeRandom => AttrKeyType::EcSecPrimeRandom,
            Constant::AttrKeyTypeRSA => AttrKeyType::Rsa,
            _ => AttrKeyType::Aes,
        }
    }
}

impl FromSpecImpl<Constant> for AttrKeyType {
    open spec fn obeys_from_spec() -> bool {
        true
    }

    open spec fn from_spec(constant: Constant) -> AttrKeyType {
        AttrKeyType::of_constant(constant)
    }
}

impl AttrKeyType {
    /// The key type that a framework constant is read as: the elliptic-curve or the
    /// RSA type for their constants, AES for every other.
    pub open spec fn of_constant(constant: Constant) -> AttrKeyType {
        if constant == AttrKeyType::EcSecPrimeRandom.constant() {
            AttrKeyType::EcSecPrimeRandom
        } else if constant == AttrKeyType::Rsa.constant() {
            AttrKeyType::Rsa
        } else {
            AttrKeyType::Aes
        }
    }

    /// Reading back the constant of a key type gives that type.
    pub proof fn lemma_of_constant_round_trip(key_type: AttrKeyType)
        ensures
            AttrKeyType::of_constant(key_type.constant()) == key_type,
    {
    }
}

/// The protocol that an internet password is for.
#[derive(Clone, Copy, Debug, PartialEq, Eq, Hash, Structural)]
pub enum AttrProtocol {
    /// File Transfer Protocol.
    FTP,
    /// A client-side FTP account.
    FTPAccount,
    /// Hypertext Transfer Protocol.
    HTTP,
    /// Internet Relay Chat.
    IRC,
    /// Network News Transfer Protocol.
    NNTP,
    /// Post Office Protocol, version 3.
    POP3,
    /// Simple Mail Transfer Protocol.
    SMTP,
    /// SOCKS.
    SOCKS,
    /// Internet Message Access Protocol.
    IMAP,
    /// Lightweight Directory Access Protocol.
    LDAP,
    /// AFP over AppleTalk.
    AppleTalk,
    /// AFP over TCP.
    AFP,
    /// Telnet.
    Telnet,
    /// Secure Shell.
    SSH,
    /// FTP over TLS.
    FTPS,
    /// HTTP over TLS.
    HTTPS,
    /// An HTTP proxy.
    HTTPProxy,
    /// An HTTPS proxy.
    HTTPSProxy,
    /// An FTP proxy.
    FTPProxy,
    /// Server Message Block.
    SMB,
    /// Real Time Streaming Protocol.
    RTSP,
    /// An RTSP proxy.
    RTSPProxy,
    /// Digital Audio Access Protocol.
    DAAP,
    /// Remote Apple Events.
    EPPC,
    /// Internet Printing Protocol.
    IPP,
    /// NNTP over TLS.
    NNTPS,
    /// LDAP over TLS.
    LDAPS,
    /// Telnet over TLS.
    TelnetS,
    /// IMAP over TLS.
    IMAPS,
    /// IRC over TLS.
    IRCS,
    /// POP3 over TLS.
    POP3S,
}

impl AttrProtocol {
    /// The framework constant that stands for this value.
    pub open spec fn constant(self) -> Constant {
        match self {
            AttrProtocol::FTP => Constant::AttrProtocolFTP,
            AttrProtocol::FTPAccount => Constant::AttrProtocolFTPAccount,
            AttrProtocol::HTTP => Constant::AttrProtocolHTTP,
            AttrProtocol::IRC => Constant::AttrProtocolIRC,
            AttrProtocol::NNTP => Constant::AttrProtocolNNTP,
            AttrProtocol::POP3 => Constant::AttrProtocolPOP3,
            AttrProtocol::SMTP => Constant::AttrProtocolSMTP,
            AttrProtocol::SOCKS => Constant::AttrProtocolSOCKS,
            AttrProtocol::IMAP => Constant::AttrProtocolIMAP,
            AttrProtocol::LDAP => Constant::AttrProtocolLDAP,
            AttrProtocol::AppleTalk => Constant::AttrProtocolAppleTalk,
            AttrProtocol::AFP => Constant::AttrProtocolAFP,
            AttrProtocol::Telnet => Constant::AttrProtocolTelnet,
            AttrProtocol::SSH => Constant::AttrProtocolSSH,
            AttrProtocol::FTPS => Constant::AttrProtocolFTPS,
            AttrProtocol::HTTPS => Constant::AttrProtocolHTTPS,
            AttrProtocol::HTTPProxy => Constant::AttrProtocolHTTPProxy,
            AttrProtocol::HTTPSProxy => Constant::AttrProtocolHTTPSProxy,
            AttrProtocol::FTPProxy => Constant::AttrProtocolFTPProxy,
            AttrProtocol::SMB => Constant::AttrProtocolSMB,
            AttrProtocol::RTSP => Constant::AttrProtocolRTSP,
            AttrProtocol::RTSPProxy => Constant::AttrProtocolRTSPProxy,
            AttrProtocol::DAAP => Constant::AttrProtocolDAAP,
            AttrProtocol::EPPC => Constant::AttrProtocolEPPC,
            AttrProtocol::IPP => Constant::AttrProtocolIPP,
            AttrProtocol::NNTPS => Constant::AttrProtocolNNTPS,
            AttrProtocol::LDAPS => Constant::AttrProtocolLDAPS,
            AttrProtocol::TelnetS => Constant::AttrProtocolTelnetS,
            AttrProtocol::IMAPS => Constant::AttrProtocolIMAPS,
            AttrProtocol::IRCS => Constant::AttrProtocolIRCS,
            AttrProtocol::POP3S => Constant::AttrProtocolPOP3S,
        }
    }

    /// Whether a framework constant stands for one of these values.
    pub open spec fn is_constant(constant: Constant) -> bool {
        exists|value: AttrProtocol| value.constant() == constant
    }

    /// Gives the framework constant to hand over where this value is meant.
    #[allow(non_snake_case)]
    pub fn as_CFString(self) -> (r: Constant)
        ensures
            r == self.constant(),
            Self::is_constant(r),
    {
        match self {
            AttrProtocol::FTP => Constant::AttrProtocolFTP,
            AttrProtocol::FTPAccount => Constant::AttrProtocolFTPAccount,
            AttrProtocol::HTTP => Constant::AttrProtocolHTTP,
            AttrProtocol::IRC => Constant::AttrProtocolIRC,
            AttrProtocol::NNTP => Constant::AttrProtocolNNTP,
            AttrProtocol::POP3 => Constant::AttrProtocolPOP3,
            AttrProtocol::SMTP => Constant::AttrProtocolSMTP,
            AttrProtocol::SOCKS => Constant::AttrProtocolSOCKS,
            AttrProtocol::IMAP => Constant::AttrProtocolIMAP,
            AttrProtocol::LDAP => Constant::AttrProtocolLDAP,
            AttrProtocol::AppleTalk => Constant::AttrProtocolAppleTalk,
            AttrProtocol::AFP => Constant::AttrProtocolAFP,
            AttrProtocol::Telnet => Constant::AttrProtocolTelnet,
            AttrProtocol::SSH => Constant::AttrProtocolSSH,
            AttrProtocol::FTPS => Constant::AttrProtocolFTPS,
            AttrProtocol::HTTPS => Constant::AttrProtocolHTTPS,
            AttrProtocol::HTTPProxy => Constant::AttrProtocolHTTPProxy,
            AttrProtocol::HTTPSProxy => Constant::AttrProtocolHTTPSProxy,
            AttrProtocol::FTPProxy => Constant::AttrProtocolFTPProxy,
            AttrProtocol::SMB => Constant::AttrProtocolSMB,
            AttrProtocol::RTSP => Constant::AttrProtocolRTSP,
            AttrProtocol::RTSPProxy => Constant::AttrProtocolRTSPProxy,
            AttrProtocol::DAAP => Constant::AttrProtocolDAAP,
            AttrProtocol::EPPC => Constant::AttrProtocolEPPC,
            AttrProtocol::IPP => Constant::AttrProtocolIPP,
            AttrProtocol::NNTPS => Constant::AttrProtocolNNTPS,
            AttrProtocol::LDAPS => Constant::AttrProtocolLDAPS,
            AttrProtocol::TelnetS => Constant::AttrProtocolTelnetS,
            AttrProtocol::IMAPS => Constant::AttrProtocolIMAPS,
            AttrProtocol::IRCS => Constant::AttrProtocolIRCS,
            AttrProtocol::POP3S => Constant::AttrProtocolPOP3S,
        }
    }

    /// No two of these values share a framework constant.
    pub proof fn lemma_constant_injective(a: AttrProtocol, b: AttrProtocol)
        requires
            a.constant() == b.constant(),
        ensures
            a == b,
    {
    }
}

impl TAttr for AttrProtocol {
    open spec fn spec_kind(&self) -> AttrKind {
        AttrKind::Protocol
    }

    open spec fn spec_value(&self) -> ValueView {
        ValueView::Constant(self.constant())
    }

    fn kind(&self) -> (r: AttrKind) {
        AttrKind::Protocol
    }

    #[allow(non_snake_case)]
    fn as_CFType(&self) -> (r: Value) {
        Value::Constant(self.as_CFString())
    }
}

/// A token outside the keychain that can hold keys.
#[derive(Clone, Copy, Debug, PartialEq, Eq, Hash, Structural)]
pub enum AttrTokenId {
    /// The Secure Enclave.
    SecureEnclave,
}

impl AttrTokenId {
    /// The framework constant that stands for this value.
    pub open spec fn constant(self) -> Constant {
        match self {
            AttrTokenId::SecureEnclave => Constant::AttrTokenIDSecureEnclave,
        }
    }

    /// Whether a framework constant stands for one of these values.
    pub open spec fn is_constant(constant: Constant) -> bool {
        exists|value: AttrTokenId| value.constant() == constant
    }

    /// Gives the framework constant to hand over where this value is meant.
    #[allow(non_snake_case)]
    pub fn as_CFString(self) -> (r: Constant)
        ensures
            r == self.constant(),
            Self::is_constant(r),
    {
        match self {
            AttrTokenId::SecureEnclave => Constant::AttrTokenIDSecureEnclave,
        }
    }

    /// No two of these values share a framework constant.
    pub proof fn lemma_constant_injective(a: AttrTokenId, b: AttrTokenId)
        requires
            a.constant() == b.constant(),
        ensures
            a == b,
    {
    }
}

impl TAttr for AttrTokenId {
    open spec fn spec_kind(&self) -> AttrKind {
        AttrKind::TokenId
    }

    open spec fn spec_value(&self) -> ValueView {
        ValueView::Constant(self.constant())
    }

    fn kind(&self) -> (r: AttrKind) {
        AttrKind::TokenId
    }

    #[allow(non_snake_case)]
    fn as_CFType(&self) -> (r: Value) {
        Value::Constant(self.as_CFString())
    }
}

/// The attribute constants that are specific to keys.
#[derive(Clone, Copy, Debug, PartialEq, Eq, Hash, Structural)]
pub enum KeyAttr {
    /// Whether the key has always been sensitive.
    AlwaysSensitive,
    /// Whether the key can derive other keys.
    CanDerive,
    /// Whether the key can decrypt.
    CanDecrypt,
    /// Whether the key can encrypt.
    CanEncrypt,
    /// Whether the key can sign.
    CanSign,
    /// Whether the key can unwrap other keys.
    CanUnwrap,
    /// Whether the key can verify signatures.
    CanVerify,
    /// Whether the key can wrap other keys.
    CanWrap,
    /// The effective size of the key, in bits.
    EffectiveKeySize,
    /// The date from which the key is no longer valid.
    EndDate,
    /// Whether the key can be exported.
    Extractable,
    /// Whether the key's attributes can be changed.
    Modifiable,
    /// Whether the key has never been extractable.
    NeverExtractable,
    /// Whether the key is stored for good.
    Permanent,
    /// Whether the key is private.
    Private,
    /// Whether the key may leave the keychain only when wrapped.
    Sensitive,
    /// The size of the key, in bits.
    SizeInBits,
    /// The date from which the key is valid.
    StartDate,
    /// The algorithm family of the key.
    Type,
}

impl KeyAttr {
    /// The framework constant that stands for this value.
    pub open spec fn constant(self) -> Constant {
        match self {
            KeyAttr::AlwaysSensitive => Constant::KeyAlwaysSensitive,
            KeyAttr::CanDerive => Constant::KeyDerive,
            KeyAttr::CanDecrypt => Constant::KeyDecrypt,
            KeyAttr::CanEncrypt => Constant::KeyEncrypt,
            KeyAttr::CanSign => Constant::KeySign,
            KeyAttr::CanUnwrap => Constant::KeyUnwrap,
            KeyAttr::CanVerify => Constant::KeyVerify,
            KeyAttr::CanWrap => Constant::KeyWrap,
            KeyAttr::EffectiveKeySize => Constant::KeyEffectiveKeySize,
            KeyAttr::EndDate => Constant::KeyEndDate,
            KeyAttr::Extractable => Constant::KeyExtractable,
            KeyAttr::Modifiable => Constant::KeyModifiable,
            KeyAttr::NeverExtractable => Constant::KeyNeverExtractable,
            KeyAttr::Permanent => Constant::KeyPermanent,
            KeyAttr::Private => Constant::KeyPrivate,
            KeyAttr::Sensitive => Constant::KeySensitive,
            KeyAttr::SizeInBits => Constant::KeyKeySizeInBits,
            KeyAttr::StartDate => Constant::KeyStartDate,
            KeyAttr::Type => Constant::KeyKeyType,
        }
    }

    /// Whether a framework constant stands for one of these values.
    pub open spec fn is_constant(constant: Constant) -> bool {
        exists|value: KeyAttr| value.constant() == constant
    }

    /// Gives the framework constant to hand over where this value is meant.
    #[allow(non_snake_case)]
    pub fn as_CFString(self) -> (r: Constant)
        ensures
            r == self.constant(),
            Self::is_constant(r),
    {
        match self {
            KeyAttr::AlwaysSensitive => Constant::KeyAlwaysSensitive,
            KeyAttr::CanDerive => Constant::KeyDerive,
            KeyAttr::CanDecrypt => Constant::KeyDecrypt,
            KeyAttr::CanEncrypt => Constant::KeyEncrypt,
            KeyAttr::CanSign => Constant::KeySign,
            KeyAttr::CanUnwrap => Constant::KeyUnwrap,
            KeyAttr::CanVerify => Constant::KeyVerify,
            KeyAttr::CanWrap => Constant::KeyWrap,
            KeyAttr::EffectiveKeySize => Constant::KeyEffectiveKeySize,
            KeyAttr::EndDate => Constant::KeyEndDate,
            KeyAttr::Extractable => Constant::KeyExtractable,
            KeyAttr::Modifiable => Constant::KeyModifiable,
            KeyAttr::NeverExtractable => Constant::KeyNeverExtractable,
            KeyAttr::Permanent => Constant::KeyPermanent,
            KeyAttr::Private => Constant::KeyPrivate,
            KeyAttr::Sensitive => Constant::KeySensitive,
            KeyAttr::SizeInBits => Constant::KeyKeySizeInBits,
            KeyAttr::StartDate => Constant::KeyStartDate,
            KeyAttr::Type => Constant::KeyKeyType,
        }
    }

    /// No two of these values share a framework constant.
    pub proof fn lemma_constant_injective(a: KeyAttr, b: KeyAttr)
        requires
            a.constant() == b.constant(),
        ensures
            a == b,
    {
    }
}

} // verus!
