//! Items of a keychain.

use crate::attr::AttrKind;
use crate::call::{status_failure, Call, CallView, ItemContent, StatusReply};
use crate::constant::Constant;
use crate::error::{errSecSuccess, Error, ErrorKind};
use crate::handle::Handle;
use crate::text::{from_utf8, lemma_text_of_bytes};
use vstd::prelude::*;
use vstd::string::StringExecFns;
use vstd::utf8::{decode_utf8, valid_utf8};

verus! {

/// The class of a keychain item (not the class of a key).
#[derive(Clone, Copy, Debug, PartialEq, Eq, Hash, Structural)]
pub enum Class {
    /// A generic password.
    GenericPassword,
    /// An internet password.
    InternetPassword,
    /// A certificate.
    Certificate,
    /// A cryptographic key.
    Key,
    /// An identity: a certificate with its private key.
    Identity,
}

impl Class {
    /// The framework constant that stands for this class.
    pub open spec fn constant(self) -> Constant {
        match self {
            Class::GenericPassword => Constant::ClassGenericPassword,
            Class::InternetPassword => Constant::ClassInternetPassword,
            Class::Certificate => Constant::ClassCertificate,
            Class::Key => Constant::ClassKey,
            Class::Identity => Constant::ClassIdentity,
        }
    }

    /// The class that a framework constant stands for, if it stands for one.
    pub open spec fn spec_from_tag(tag: Constant) -> Option<Class> {
        if exists|class: Class| class.constant() == tag {
            Some(choose|class: Class| class.constant() == tag)
        } else {
            None
        }
    }

    /// Finds the class that a framework constant stands for, if it stands for one.
    #[verifier::when_used_as_spec(spec_from_tag)]
    pub fn from_tag(tag: Constant) -> (r: Option<Class>)
        ensures
            r == Self::spec_from_tag(tag),
            r matches Some(class) ==> class.constant() == tag,
            r is None ==> forall|class: Class| class.constant() != tag,
    {
        match tag {
            Constant::ClassGenericPassword => Some(Class::GenericPassword),
            Constant::ClassInternetPassword => Some(Class::InternetPassword),
            Constant::ClassCertificate => Some(Class::Certificate),
            Constant::ClassKey => Some(Class::Key),
            Constant::ClassIdentity => Some(Class::Identity),
            _ => None,
        }
    }

    /// Gives the framework constant to hand over where this class is meant.
    #[allow(non_snake_case)]
    pub fn as_CFString(self) -> (r: Constant)
        ensures
            r == self.constant(),
    {
        match self {
            Class::GenericPassword => Constant::ClassGenericPassword,
            Class::InternetPassword => Constant::ClassInternetPassword,
            Class::Certificate => Constant::ClassCertificate,
            Class::Key => Constant::ClassKey,
            Class::Identity => Constant::ClassIdentity,
        }
    }

    /// No two classes share a framework constant.
    pub proof fn lemma_constant_injective(a: Class, b: Class)
        requires
            a.constant() == b.constant(),
        ensures
            a == b,
    {
    }

    /// Going from a class to its constant and back gives the class again.
    pub proof fn lemma_from_tag_round_trip(class: Class)
        ensures
            Class::spec_from_tag(class.constant()) == Some(class),
    {
        let found = choose|other: Class| other.constant() == class.constant();
        Self::lemma_constant_injective(found, class);
    }
}

/// One attribute of a keychain item as `SecKeychainItemCopyContent` reports it: the
/// tag that says which attribute it is, and its bytes if it has any.
#[derive(Clone, Debug)]
pub struct ItemAttribute {
    /// The tag of the attribute.
    pub tag: Constant,
    /// The bytes of the attribute.
    pub data: Option<Vec<u8>>,
}

/// What is said of an item whose data the framework did not hand out.
pub open spec fn data_refused() -> Seq<char> {
    "SecKeychainItemCopyContent refused to return data"@
}

/// The position of the first of the attributes that is of the given kind, or the
/// number of the attributes if none is.
pub open spec fn first_of_kind(attributes: Seq<ItemAttribute>, kind: AttrKind) -> int
    decreases attributes.len(),
{
    if attributes.len() == 0 {
        0
    } else if AttrKind::spec_from_tag(attributes[0].tag) == Some(kind) {
        0
    } else {
        1 + first_of_kind(attributes.drop_first(), kind)
    }
}

/// The first of the attributes that is of the given kind comes before every other of
/// that kind, and where there is none the position is the number of the attributes.
pub proof fn lemma_first_of_kind(attributes: Seq<ItemAttribute>, kind: AttrKind)
    ensures
        0 <= first_of_kind(attributes, kind) <= attributes.len(),
        first_of_kind(attributes, kind) < attributes.len() ==> AttrKind::spec_from_tag(
            attributes[first_of_kind(attributes, kind)].tag,
        ) == Some(kind),
        forall|i: int|
            0 <= i < first_of_kind(attributes, kind) ==> AttrKind::spec_from_tag(
                #[trigger] attributes[i].tag,
            ) != Some(kind),
    decreases attributes.len(),
{
    if attributes.len() > 0 && AttrKind::spec_from_tag(attributes[0].tag) != Some(kind) {
        let rest = attributes.drop_first();
        lemma_first_of_kind(rest, kind);
        assert forall|i: int|
            0 <= i < first_of_kind(attributes, kind) implies AttrKind::spec_from_tag(
            #[trigger] attributes[i].tag,
        ) != Some(kind) by {
            if i > 0 {
                assert(attributes[i] == rest[i - 1]);
            }
        }
    }
}

/// Whether [`Item::attribute`] can read an attribute as text from what the framework
/// handed back: where the call succeeded and the attribute is there, it has bytes and
/// they are UTF-8.
pub open spec fn text_attribute_readable(
    kind: AttrKind,
    reply: StatusReply,
    attributes: Seq<ItemAttribute>,
) -> bool {
    reply.status == errSecSuccess && first_of_kind(attributes, kind) < attributes.len() ==> (
    attributes[first_of_kind(attributes, kind)].data matches Some(bytes) && valid_utf8(bytes@))
}

/// What [`Item::attribute`] reads: the translated error of a failed call, the text of
/// the first attribute of the kind, or an error where there is no such attribute.
pub open spec fn text_attribute_read(
    kind: AttrKind,
    reply: StatusReply,
    attributes: Seq<ItemAttribute>,
    r: Result<String, Error>,
) -> bool {
    &&& reply.status != errSecSuccess ==> status_failure(r, reply)
    &&& reply.status == errSecSuccess && first_of_kind(attributes, kind) < attributes.len() ==> (
    r matches Ok(text) && attributes[first_of_kind(attributes, kind)].data matches Some(bytes)
        && text@ == decode_utf8(bytes@))
    &&& reply.status == errSecSuccess && first_of_kind(attributes, kind) >= attributes.len() ==> (
    r matches Err(error) && error.is_missing_attribute(kind))
}

fn position_of_kind(attributes: &Vec<ItemAttribute>, kind: AttrKind) -> (r: usize)
    ensures
        r == first_of_kind(attributes@, kind),
        r <= attributes@.len(),
{
    proof {
        lemma_first_of_kind(attributes@, kind);
    }
    let mut i: usize = 0;
    while i < attributes.len()
        invariant
            i <= attributes@.len(),
            i <= first_of_kind(attributes@, kind) <= attributes@.len(),
            first_of_kind(attributes@, kind) < attributes@.len() ==> AttrKind::spec_from_tag(
                attributes@[first_of_kind(attributes@, kind)].tag,
            ) == Some(kind),
            forall|j: int|
                0 <= j < first_of_kind(attributes@, kind) ==> AttrKind::spec_from_tag(
                    #[trigger] attributes@[j].tag,
                ) != Some(kind),
        decreases attributes@.len() - i,
    {
        let found = match AttrKind::from_tag(attributes[i].tag) {
            Some(other) => other == kind,
            None => false,
        };
        if found {
            return i;
        }
        i = i + 1;
    }
    i
}

/// An item of a keychain, by its reference.
#[derive(Clone, Debug, PartialEq, Eq)]
pub struct Item {
    handle: Handle,
}

impl Item {
    /// The reference of the item.
    pub closed spec fn spec_handle(&self) -> Handle {
        self.handle
    }

    /// The reference of the item.
    #[verifier::when_used_as_spec(spec_handle)]
    pub fn handle(&self) -> (r: Handle)
        ensures
            r == self.spec_handle(),
    {
        self.handle
    }

    pub(crate) fn from_handle(handle: Handle) -> (r: Item)
        ensures
            r.spec_handle() == handle,
    {
        Item { handle }
    }

    /// Says how the class of this item is fetched: by `SecKeychainItemCopyContent`.
    pub fn class(&self) -> (r: Call)
        ensures
            r@ == (CallView::KeychainItemCopyContent {
                item: self.spec_handle(),
                content: ItemContent::Class,
            }),
    {
        Call::KeychainItemCopyContent { item: self.handle, content: ItemContent::Class }
    }

    /// Takes the class that `SecKeychainItemCopyContent` handed back. The call has to
    /// have succeeded, and the tag has to stand for a class.
    pub fn finish_class(reply: &StatusReply, tag: Constant) -> (r: Class)
        requires
            reply.status == errSecSuccess,
            Class::spec_from_tag(tag) is Some,
        ensures
            r.constant() == tag,
            Some(r) == Class::spec_from_tag(tag),
    {
        Class::from_tag(tag).unwrap()
    }

    /// Says how the data of this item is fetched: by `SecKeychainItemCopyContent`.
    pub fn data(&self) -> (r: Call)
        ensures
            r@ == (CallView::KeychainItemCopyContent {
                item: self.spec_handle(),
                content: ItemContent::Data,
            }),
    {
        Call::KeychainItemCopyContent { item: self.handle, content: ItemContent::Data }
    }

    /// Takes the data that `SecKeychainItemCopyContent` handed back. A status other
    /// than success is the translated error. Success without data is taken for a
    /// missing entitlement; success with data is the data.
    pub fn finish_data(reply: &StatusReply, data: Option<Vec<u8>>) -> (r: Result<Vec<u8>, Error>)
        ensures
            reply.status != errSecSuccess ==> status_failure(r, *reply),
            reply.status == errSecSuccess ==> match data {
                Some(bytes) => r matches Ok(given) && given@ == bytes@,
                None => r matches Err(error) && error.spec_kind() == ErrorKind::MissingEntitlement
                    && error.spec_description() == data_refused(),
            },
    {
        match Error::maybe_from_OSStatus(reply.status, reply.message.as_str()) {
            Some(error) => Err(error),
            None => match data {
                Some(bytes) => Ok(bytes),
                None => Err(
                    Error::new(
                        ErrorKind::MissingEntitlement,
                        "SecKeychainItemCopyContent refused to return data",
                    ),
                ),
            },
        }
    }

    /// Says how the attributes of this item are fetched: by
    /// `SecKeychainItemCopyContent`.
    pub fn attributes(&self) -> (r: Call)
        ensures
            r@ == (CallView::KeychainItemCopyContent {
                item: self.spec_handle(),
                content: ItemContent::Attributes,
            }),
    {
        Call::KeychainItemCopyContent { item: self.handle, content: ItemContent::Attributes }
    }

    /// Whether [`Item::attribute`] can read an attribute from what
    /// `SecKeychainItemCopyContent` handed back: it can unless the call succeeded and
    /// the first attribute of the kind has no bytes or bytes that are not UTF-8.
    pub fn can_read_attribute(
        attr_kind: AttrKind,
        reply: &StatusReply,
        attributes: &Vec<ItemAttribute>,
    ) -> (r: bool)
        ensures
            r == text_attribute_readable(attr_kind, *reply, attributes@),
    {
        if reply.status != errSecSuccess {
            return true;
        }
        let first = position_of_kind(attributes, attr_kind);
        if first < attributes.len() {
            match &attributes[first].data {
                Some(bytes) => from_utf8(bytes.as_slice()).is_ok(),
                None => false,
            }
        } else {
            true
        }
    }

    /// Reads one attribute as text from what `SecKeychainItemCopyContent` handed back.
    /// A status other than success is the translated error. Of the attributes the
    /// first of the given kind counts; it has to have bytes, and they have to be
    /// UTF-8. Where no attribute is of the kind the error is `NoSuchAttr`.
    pub fn attribute(
        &self,
        attr_kind: AttrKind,
        reply: &StatusReply,
        attributes: &Vec<ItemAttribute>,
    ) -> (r: Result<String, Error>)
        requires
            text_attribute_readable(attr_kind, *reply, attributes@),
        ensures
            text_attribute_read(attr_kind, *reply, attributes@, r),
    {
        match Error::maybe_from_OSStatus(reply.status, reply.message.as_str()) {
            Some(error) => {
                return Err(error);
            },
            None => {},
        }
        let first = position_of_kind(attributes, attr_kind);
        if first < attributes.len() {
            let text = from_utf8(attributes[first].data.as_ref().unwrap().as_slice()).unwrap();
            proof {
                lemma_text_of_bytes(text);
            }
            Ok(text.to_owned())
        } else {
            Err(Error::missing_attribute(attr_kind))
        }
    }
}

} // verus!
