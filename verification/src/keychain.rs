//! Keychains: the stores that hold keys, passwords and other secrets.

use crate::call::{status_failure, Call, CallView, StatusReply};
use crate::constant::Constant;
use crate::dictionary::{DictionaryBuilder, DictionaryView, Value, ValueView};
use crate::error::{errSecSuccess, Error};
use crate::handle::Handle;
use crate::item::Item;
use crate::query::SecMatchLimit;
use vstd::prelude::*;
use vstd::slice::slice_to_vec;
use vstd::string::StringSliceAdditionalSpecFns;

verus! {

/// A keychain, by its reference.
#[derive(Clone, Debug, PartialEq, Eq)]
pub struct Keychain {
    handle: Handle,
}

/// What a lookup of one item hands to `SecItemCopyMatching`: the given attributes,
/// then a match limit of one and the demand for a reference.
pub open spec fn find_item_parameters(attrs: DictionaryView) -> DictionaryView {
    attrs.push((Constant::MatchLimit, ValueView::Constant(Constant::MatchLimitOne))).push(
        (Constant::ReturnRef, ValueView::Boolean(true)),
    )
}

/// What adding an item hands to `SecItemAdd`: the given attributes, then the
/// keychain that is to hold the item and the demand for a reference.
pub open spec fn add_item_parameters(attrs: DictionaryView, keychain: Handle) -> DictionaryView {
    attrs.push((Constant::UseKeychain, ValueView::Keychain(keychain))).push(
        (Constant::ReturnRef, ValueView::Boolean(true)),
    )
}

impl Keychain {
    /// The reference of the keychain.
    pub closed spec fn spec_handle(&self) -> Handle {
        self.handle
    }

    /// The reference of the keychain.
    #[verifier::when_used_as_spec(spec_handle)]
    pub fn handle(&self) -> (r: Handle)
        ensures
            r == self.spec_handle(),
    {
        self.handle
    }

    fn finish(reply: &StatusReply, result: Handle) -> (r: Result<Keychain, Error>)
        ensures
            reply.status == errSecSuccess ==> (r matches Ok(keychain) && keychain.spec_handle()
                == result),
            reply.status != errSecSuccess ==> status_failure(r, *reply),
    {
        match Error::maybe_from_OSStatus(reply.status, reply.message.as_str()) {
            Some(error) => Err(error),
            None => Ok(Keychain { handle: result }),
        }
    }

    /// Says how the default keychain is found: by `SecKeychainCopyDefault`.
    pub fn find_default() -> (r: Call)
        ensures
            r@ == CallView::KeychainCopyDefault,
    {
        Call::KeychainCopyDefault
    }

    /// Takes what `SecKeychainCopyDefault` handed back. A status other than success is
    /// the translated error, `NoDefaultKeychain` where there is no default keychain;
    /// success is the keychain of the reference.
    pub fn finish_find_default(reply: &StatusReply, result: Handle) -> (r: Result<Keychain, Error>)
        ensures
            reply.status == errSecSuccess ==> (r matches Ok(keychain) && keychain.spec_handle()
                == result),
            reply.status != errSecSuccess ==> status_failure(r, *reply),
    {
        Self::finish(reply, result)
    }

    /// Says how a keychain is created at a path: by `SecKeychainCreate`. With a
    /// password the keychain is locked under it; without one the user is asked for a
    /// password. The path goes to the framework as a C string, so it holds no zero
    /// byte; the length of the password goes as a 32-bit number.
    pub fn create(path: &[u8], password: Option<&str>) -> (r: Call)
        requires
            forall|i: int| 0 <= i < path@.len() ==> path@[i] != 0,
            password matches Some(text) ==> text.spec_bytes().len() <= u32::MAX,
        ensures
            r@ == (CallView::KeychainCreate {
                path: path@,
                password: match password {
                    Some(text) => Some(text.spec_bytes()),
                    None => None,
                },
                password_length: match password {
                    Some(text) => text.spec_bytes().len() as u32,
                    None => 0,
                },
                prompt_user: password is None,
            }),
    {
        match password {
            Some(text) => Call::KeychainCreate {
                path: slice_to_vec(path),
                password: Some(slice_to_vec(text.as_bytes())),
                password_length: text.len() as u32,
                prompt_user: false,
            },
            None => Call::KeychainCreate {
                path: slice_to_vec(path),
                password: None,
                password_length: 0,
                prompt_user: true,
            },
        }
    }

    /// Takes what `SecKeychainCreate` handed back: the translated error for a status
    /// other than success, and the keychain of the reference for success.
    pub fn finish_create(reply: &StatusReply, result: Handle) -> (r: Result<Keychain, Error>)
        ensures
            reply.status == errSecSuccess ==> (r matches Ok(keychain) && keychain.spec_handle()
                == result),
            reply.status != errSecSuccess ==> status_failure(r, *reply),
    {
        Self::finish(reply, result)
    }

    /// Says how this keychain is deleted: by `SecKeychainDelete`.
    pub fn delete(self) -> (r: Call)
        ensures
            r@ == (CallView::KeychainDelete { keychain: self.spec_handle() }),
    {
        Call::KeychainDelete { keychain: self.handle }
    }

    /// Takes what `SecKeychainDelete` handed back: nothing for success, and the
    /// translated error for every other status.
    pub fn finish_delete(reply: &StatusReply) -> (r: Result<(), Error>)
        ensures
            reply.status == errSecSuccess ==> r is Ok,
            reply.status != errSecSuccess ==> status_failure(r, *reply),
    {
        match Error::maybe_from_OSStatus(reply.status, reply.message.as_str()) {
            Some(error) => Err(error),
            None => Ok(()),
        }
    }

    /// Says how one item with the given attributes is looked for: by
    /// `SecItemCopyMatching`, with a match limit of one and the demand for a reference
    /// added behind the attributes.
    pub fn find_item(&self, attrs: DictionaryBuilder) -> (r: Call)
        ensures
            r@ == (CallView::ItemCopyMatching { query: find_item_parameters(attrs@) }),
    {
        let mut attrs = attrs;
        attrs.add(Constant::MatchLimit, SecMatchLimit::One.as_CFType());
        attrs.add_boolean(Constant::ReturnRef, true);
        Call::ItemCopyMatching { query: attrs.into_dictionary() }
    }

    /// Says how an item with the given attributes is added to this keychain: by
    /// `SecItemAdd`, with this keychain and the demand for a reference added behind
    /// the attributes.
    pub fn add_item(&self, attrs: DictionaryBuilder) -> (r: Call)
        ensures
            r@ == (CallView::ItemAdd {
                attributes: add_item_parameters(attrs@, self.spec_handle()),
            }),
    {
        let mut attrs = attrs;
        attrs.add(Constant::UseKeychain, Value::Keychain(self.handle));
        attrs.add_boolean(Constant::ReturnRef, true);
        Call::ItemAdd { attributes: attrs.into_dictionary() }
    }

    /// Takes what `SecItemCopyMatching` or `SecItemAdd` handed back for one item: the
    /// translated error for a status other than success, and the item of the
    /// reference for success.
    pub fn finish_item(reply: &StatusReply, result: Handle) -> (r: Result<Item, Error>)
        ensures
            reply.status == errSecSuccess ==> (r matches Ok(item) && item.spec_handle() == result),
            reply.status != errSecSuccess ==> status_failure(r, *reply),
    {
        match Error::maybe_from_OSStatus(reply.status, reply.message.as_str()) {
            Some(error) => Err(error),
            None => Ok(Item::from_handle(result)),
        }
    }
}

} // verus!
