//! Passwords stored in a keychain.

use crate::attr::{AttrKind, AttrProtocol};
use crate::call::{status_failure, Call, CallView, StatusReply};
use crate::constant::Constant;
use crate::dictionary::{DictionaryBuilder, DictionaryView, ValueView};
use crate::error::{errSecSuccess, Error, ErrorKind};
use crate::handle::Handle;
use crate::item::{
    data_refused, text_attribute_read, text_attribute_readable, Class, Item, ItemAttribute,
};
use crate::keychain::{add_item_parameters, find_item_parameters, Keychain};
use crate::text::{from_utf8, lemma_text_of_bytes};
use core::str::Utf8Error;
use vstd::prelude::*;
use vstd::string::StringSliceAdditionalSpecFns;
use vstd::utf8::{decode_utf8, valid_utf8};

verus! {

/// The attributes that identify a password: the class of the item, then the service
/// (of a generic password) or the server (of an internet password), then the account.
pub open spec fn password_attributes(
    class: Class,
    place: AttrKind,
    name: Seq<char>,
    account: Seq<char>,
) -> DictionaryView {
    seq![
        (Constant::Class, ValueView::Constant(class.constant())),
        (place.constant(), ValueView::String(name)),
        (Constant::AttrAccount, ValueView::String(account)),
    ]
}

fn identify(class: Class, place: AttrKind, name: &str, account: &str) -> (r: DictionaryBuilder)
    ensures
        r@ == password_attributes(class, place, name@, account@),
{
    let mut attrs = DictionaryBuilder::new();
    attrs.add_class(class);
    attrs.add_string(Constant::from(place), name);
    attrs.add_string(Constant::from(AttrKind::Account), account);
    attrs
}

/// A generic password: a password for an account with a service.
#[derive(Clone, Debug, PartialEq, Eq)]
pub struct GenericPassword {
    item: Item,
}

impl GenericPassword {
    /// The reference of the keychain item that holds the password.
    pub closed spec fn spec_handle(&self) -> Handle {
        self.item.spec_handle()
    }

    /// Says how a generic password is stored in a keychain: by `SecItemAdd`, with the
    /// service, the account and the password.
    pub fn create(keychain: &Keychain, service: &str, account: &str, password: &str) -> (r: Call)
        ensures
            r@ == (CallView::ItemAdd {
                attributes: add_item_parameters(
                    password_attributes(
                        Class::GenericPassword,
                        AttrKind::Service,
                        service@,
                        account@,
                    ).push((Constant::ValueData, ValueView::String(password@))),
                    keychain.spec_handle(),
                ),
            }),
    {
        let mut attrs = identify(Class::GenericPassword, AttrKind::Service, service, account);
        attrs.add_string(Constant::ValueData, password);
        keychain.add_item(attrs)
    }

    /// Says how a generic password is looked for: by `SecItemCopyMatching`, with the
    /// service and the account.
    pub fn find(keychain: &Keychain, service: &str, account: &str) -> (r: Call)
        ensures
            r@ == (CallView::ItemCopyMatching {
                query: find_item_parameters(
                    password_attributes(
                        Class::GenericPassword,
                        AttrKind::Service,
                        service@,
                        account@,
                    ),
                ),
            }),
    {
        keychain.find_item(identify(Class::GenericPassword, AttrKind::Service, service, account))
    }

    /// Takes what `SecItemAdd` or `SecItemCopyMatching` handed back: the translated
    /// error for a status other than success, and the password of the reference for
    /// success.
    pub fn finish(reply: &StatusReply, result: Handle) -> (r: Result<GenericPassword, Error>)
        ensures
            reply.status == errSecSuccess ==> (r matches Ok(password) && password.spec_handle()
                == result),
            reply.status != errSecSuccess ==> status_failure(r, *reply),
    {
        match Keychain::finish_item(reply, result) {
            Ok(item) => Ok(GenericPassword { item }),
            Err(error) => Err(error),
        }
    }

    /// The keychain item that holds the password.
    pub fn item(&self) -> (r: &Item)
        ensures
            r.spec_handle() == self.spec_handle(),
    {
        &self.item
    }

    /// Reads the account from the attributes of the item, as fetched just now
    /// ([`Item::attributes`], [`Item::attribute`]).
    pub fn account(&self, reply: &StatusReply, attributes: &Vec<ItemAttribute>) -> (r: Result<
        String,
        Error,
    >)
        requires
            text_attribute_readable(AttrKind::Account, *reply, attributes@),
        ensures
            text_attribute_read(AttrKind::Account, *reply, attributes@, r),
    {
        self.item.attribute(AttrKind::Account, reply, attributes)
    }

    /// Reads the service from the attributes of the item, as fetched just now.
    pub fn service(&self, reply: &StatusReply, attributes: &Vec<ItemAttribute>) -> (r: Result<
        String,
        Error,
    >)
        requires
            text_attribute_readable(AttrKind::Service, *reply, attributes@),
        ensures
            text_attribute_read(AttrKind::Service, *reply, attributes@, r),
    {
        self.item.attribute(AttrKind::Service, reply, attributes)
    }

    /// Takes the data of the item, as fetched just now ([`Item::data`]): the
    /// password, or the error of [`Item::finish_data`].
    pub fn password(&self, reply: &StatusReply, data: Option<Vec<u8>>) -> (r: Result<
        PasswordData,
        Error,
    >)
        ensures
            reply.status != errSecSuccess ==> status_failure(r, *reply),
            reply.status == errSecSuccess ==> match data {
                Some(bytes) => r matches Ok(password) && password@ == bytes@,
                None => r matches Err(error) && error.spec_kind() == ErrorKind::MissingEntitlement
                    && error.spec_description() == data_refused(),
            },
    {
        match Item::finish_data(reply, data) {
            Ok(bytes) => Ok(PasswordData::new(bytes)),
            Err(error) => Err(error),
        }
    }
}

/// An internet password: a password for an account on a server.
#[derive(Clone, Debug, PartialEq, Eq)]
pub struct InternetPassword {
    item: Item,
}

/// The attributes by which an internet password is looked for: server and account,
/// and the protocol where one is named.
pub open spec fn internet_password_query(
    server: Seq<char>,
    account: Seq<char>,
    protocol: Option<AttrProtocol>,
) -> DictionaryView {
    let attrs = password_attributes(Class::InternetPassword, AttrKind::Server, server, account);
    match protocol {
        Some(named) => attrs.push((Constant::AttrProtocol, ValueView::Constant(named.constant()))),
        None => attrs,
    }
}

impl InternetPassword {
    /// The reference of the keychain item that holds the password.
    pub closed spec fn spec_handle(&self) -> Handle {
        self.item.spec_handle()
    }

    /// Says how an internet password is stored in a keychain: by `SecItemAdd`, with
    /// the server, the account and the password.
    pub fn create(keychain: &Keychain, server: &str, account: &str, password: &str) -> (r: Call)
        ensures
            r@ == (CallView::ItemAdd {
                attributes: add_item_parameters(
                    password_attributes(
                        Class::InternetPassword,
                        AttrKind::Server,
                        server@,
                        account@,
                    ).push((Constant::ValueData, ValueView::String(password@))),
                    keychain.spec_handle(),
                ),
            }),
    {
        let mut attrs = identify(Class::InternetPassword, AttrKind::Server, server, account);
        attrs.add_string(Constant::ValueData, password);
        keychain.add_item(attrs)
    }

    /// Says how an internet password is looked for: by `SecItemCopyMatching`, with the
    /// server and the account, and with the protocol where one is named.
    pub fn find(
        keychain: &Keychain,
        server: &str,
        account: &str,
        protocol: Option<AttrProtocol>,
    ) -> (r: Call)
        ensures
            r@ == (CallView::ItemCopyMatching {
                query: find_item_parameters(internet_password_query(server@, account@, protocol)),
            }),
    {
        let mut attrs = identify(Class::InternetPassword, AttrKind::Server, server, account);
        match protocol {
            Some(named) => {
                attrs.add_attr(&named);
            },
            None => {},
        }
        keychain.find_item(attrs)
    }

    /// Takes what `SecItemAdd` or `SecItemCopyMatching` handed back: the translated
    /// error for a status other than success, and the password of the reference for
    /// success.
    pub fn finish(reply: &StatusReply, result: Handle) -> (r: Result<InternetPassword, Error>)
        ensures
            reply.status == errSecSuccess ==> (r matches Ok(password) && password.spec_handle()
                == result),
            reply.status != errSecSuccess ==> status_failure(r, *reply),
    {
        match Keychain::finish_item(reply, result) {
            Ok(item) => Ok(InternetPassword { item }),
            Err(error) => Err(error),
        }
    }

    /// The keychain item that holds the password.
    pub fn item(&self) -> (r: &Item)
        ensures
            r.spec_handle() == self.spec_handle(),
    {
        &self.item
    }

    /// Reads the account from the attributes of the item, as fetched just now.
    pub fn account(&self, reply: &StatusReply, attributes: &Vec<ItemAttribute>) -> (r: Result<
        String,
        Error,
    >)
        requires
            text_attribute_readable(AttrKind::Account, *reply, attributes@),
        ensures
            text_attribute_read(AttrKind::Account, *reply, attributes@, r),
    {
        self.item.attribute(AttrKind::Account, reply, attributes)
    }

    /// Reads the server from the attributes of the item, as fetched just now.
    pub fn server(&self, reply: &StatusReply, attributes: &Vec<ItemAttribute>) -> (r: Result<
        String,
        Error,
    >)
        requires
            text_attribute_readable(AttrKind::Server, *reply, attributes@),
        ensures
            text_attribute_read(AttrKind::Server, *reply, attributes@, r),
    {
        self.item.attribute(AttrKind::Server, reply, attributes)
    }

    /// Takes the data of the item, as fetched just now: the password, or the error of
    /// [`Item::finish_data`].
    pub fn password(&self, reply: &StatusReply, data: Option<Vec<u8>>) -> (r: Result<
        PasswordData,
        Error,
    >)
        ensures
            reply.status != errSecSuccess ==> status_failure(r, *reply),
            reply.status == errSecSuccess ==> match data {
                Some(bytes) => r matches Ok(password) && password@ == bytes@,
                None => r matches Err(error) && error.spec_kind() == ErrorKind::MissingEntitlement
                    && error.spec_description() == data_refused(),
            },
    {
        match Item::finish_data(reply, data) {
            Ok(bytes) => Ok(PasswordData::new(bytes)),
            Err(error) => Err(error),
        }
    }
}

/// `Zeroize::zeroize` of the crate `zeroize`, for a vector of bytes: overwrites the
/// bytes and the spare capacity with zeros and leaves the vector empty. It does not
/// panic.
#[verifier::external_body]
fn wipe(bytes: &mut Vec<u8>)
    ensures
        final(bytes)@ == Seq::<u8>::empty(),
    opens_invariants none
    no_unwind
{
    zeroize::Zeroize::zeroize(bytes)
}

/// The bytes of a password. They are overwritten with zeros when the value is
/// dropped.
#[derive(Clone)]
pub struct PasswordData {
    bytes: Vec<u8>,
}

impl View for PasswordData {
    type V = Seq<u8>;

    closed spec fn view(&self) -> Seq<u8> {
        self.bytes@
    }
}

impl PasswordData {
    /// Takes the bytes of a password into keeping.
    pub fn new(bytes: Vec<u8>) -> (r: PasswordData)
        ensures
            r@ == bytes@,
    {
        PasswordData { bytes }
    }

    /// The bytes of the password.
    pub fn as_bytes(&self) -> (r: &[u8])
        ensures
            r@ == self@,
    {
        self.bytes.as_slice()
    }

    /// The password as text. Its bytes have to be UTF-8.
    pub fn as_str(&self) -> (r: &str)
        requires
            valid_utf8(self@),
        ensures
            r.spec_bytes() == self@,
            r@ == decode_utf8(self@),
    {
        let text = from_utf8(self.bytes.as_slice()).unwrap();
        proof {
            lemma_text_of_bytes(text);
        }
        text
    }

    /// The password as text, if its bytes are UTF-8, and the decoding error if not.
    pub fn try_as_str(&self) -> (r: Result<&str, Utf8Error>)
        ensures
            r is Ok <==> valid_utf8(self@),
            r matches Ok(text) ==> text.spec_bytes() == self@ && text@ == decode_utf8(self@),
    {
        let r = from_utf8(self.bytes.as_slice());
        proof {
            if let Ok(text) = r {
                lemma_text_of_bytes(text);
            }
        }
        r
    }

    /// Overwrites the bytes with zeros and leaves the password empty.
    pub fn zeroize(&mut self)
        ensures
            final(self)@ == Seq::<u8>::empty(),
    {
        wipe(&mut self.bytes);
    }
}

impl AsRef<[u8]> for PasswordData {
    fn as_ref(&self) -> (r: &[u8])
        ensures
            r@ == self@,
    {
        self.as_bytes()
    }
}

impl Drop for PasswordData {
    fn drop(&mut self)
        ensures
            final(self)@ == Seq::<u8>::empty(),
        opens_invariants none
        no_unwind
    {
        wipe(&mut self.bytes);
    }
}

} // verus!
