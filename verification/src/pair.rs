//! Key pairs: generating them, and the parameters for generating and restoring keys.

use crate::access::AccessControl;
use crate::attr::{
    AttrApplicationTag, AttrKeyClass, AttrKeyType, AttrKind, AttrLabel, AttrTokenId, TAttr,
};
use crate::call::{status_failure, Call, CallView, StatusReply};
use crate::constant::Constant;
use crate::dictionary::{
    lemma_well_typed_push_attr, lemma_well_typed_push_other, well_typed, Dictionary,
    DictionaryBuilder, DictionaryView, Value, ValueView,
};
use crate::error::{errSecSuccess, CFError, Error};
use crate::handle::Handle;
use crate::key::Key;
use vstd::prelude::*;

verus! {

/// A public key and the private key that belongs to it. A pair has no identity of its
/// own: each of its keys is used, and deleted, by itself.
#[derive(Debug)]
pub struct KeyPair {
    /// The public key.
    pub public_key: Key,
    /// The private key.
    pub private_key: Key,
}

/// What [`KeyPairGenerateParams`] is, as a mathematical value.
pub struct KeyPairGenerateParamsView {
    /// The type of the keys.
    pub key_type: AttrKeyType,
    /// The size of the keys, in bits.
    pub key_size: usize,
    /// The token that is to hold the private key, if one was named.
    pub token_id: Option<AttrTokenId>,
    /// The attributes of the private key, in the order in which they were set.
    pub attrs: DictionaryView,
}

impl KeyPairGenerateParamsView {
    /// These parameters with one more attribute of the private key.
    pub open spec fn with(self, key: Constant, value: ValueView) -> KeyPairGenerateParamsView {
        KeyPairGenerateParamsView { attrs: self.attrs.push((key, value)), ..self }
    }

    /// The dictionary that generating a pair hands to the framework. It has two
    /// levels: on top the type of the keys, their size and, where one was named, the
    /// token; below, under the key of the private key's attributes, everything else.
    pub open spec fn parameters(self) -> DictionaryView {
        let top = seq![
            (Constant::AttrKeyType, ValueView::Constant(self.key_type.constant())),
            (Constant::AttrKeySizeInBits, ValueView::Number(self.key_size as i64)),
        ];
        let top = match self.token_id {
            Some(token) => top.push((Constant::AttrTokenID, ValueView::Constant(token.constant()))),
            None => top,
        };
        top.push((Constant::PrivateKeyAttrs, ValueView::Dictionary(self.attrs)))
    }
}

/// The parameters for generating a key pair: the type and the size of the keys, and
/// the attributes that were set, each by one call.
#[derive(Debug)]
pub struct KeyPairGenerateParams {
    key_type: AttrKeyType,
    key_size: usize,
    token_id: Option<AttrTokenId>,
    attrs: DictionaryBuilder,
}

/// The older name of [`KeyPairGenerateParams`].
pub type GeneratePairParams = KeyPairGenerateParams;

impl View for KeyPairGenerateParams {
    type V = KeyPairGenerateParamsView;

    closed spec fn view(&self) -> KeyPairGenerateParamsView {
        KeyPairGenerateParamsView {
            key_type: self.key_type,
            key_size: self.key_size,
            token_id: self.token_id,
            attrs: self.attrs@,
        }
    }
}

impl KeyPairGenerateParams {
    #[verifier::type_invariant]
    closed spec fn valid(self) -> bool {
        &&& well_typed(self.attrs@)
        &&& self.key_size <= i64::MAX
    }

    /// Parameters for keys of the given type and size, with no attribute set. The
    /// size has to fit the framework's signed 64-bit numbers.
    pub fn new(key_type: AttrKeyType, key_size: usize) -> (r: KeyPairGenerateParams)
        requires
            key_size <= i64::MAX,
        ensures
            r@ == (KeyPairGenerateParamsView {
                key_type,
                key_size,
                token_id: None,
                attrs: DictionaryView::empty(),
            }),
    {
        KeyPairGenerateParams {
            key_type,
            key_size,
            token_id: None,
            attrs: DictionaryBuilder::new(),
        }
    }

    fn with_attr<A: TAttr>(self, attr: &A) -> (r: KeyPairGenerateParams)
        ensures
            r@ == self@.with(attr.spec_kind().constant(), attr.spec_value()),
    {
        proof {
            use_type_invariant(&self);
        }
        let mut attrs = self.attrs;
        attrs.add_attr(attr);
        proof {
            lemma_well_typed_push_attr(self.attrs@, attr.spec_kind(), attr.spec_value());
        }
        KeyPairGenerateParams {
            key_type: self.key_type,
            key_size: self.key_size,
            token_id: self.token_id,
            attrs,
        }
    }

    fn with_boolean(self, kind: AttrKind, value: bool) -> (r: KeyPairGenerateParams)
        requires
            kind.accepts(ValueView::Boolean(value)),
        ensures
            r@ == self@.with(kind.constant(), ValueView::Boolean(value)),
    {
        proof {
            use_type_invariant(&self);
            lemma_well_typed_push_attr(self.attrs@, kind, ValueView::Boolean(value));
        }
        let mut attrs = self.attrs;
        attrs.add_boolean(Constant::from(kind), value);
        KeyPairGenerateParams {
            key_type: self.key_type,
            key_size: self.key_size,
            token_id: self.token_id,
            attrs,
        }
    }

    /// Sets the access control policy of the private key.
    pub fn access_control(self, access_control: &AccessControl) -> (r: KeyPairGenerateParams)
        ensures
            r@ == self@.with(
                Constant::AttrAccessControl,
                ValueView::AccessControl(access_control.spec_handle()),
            ),
    {
        self.with_attr(access_control)
    }

    /// Sets the application tag, by which the key is found again.
    pub fn application_tag(self, tag: AttrApplicationTag) -> (r: KeyPairGenerateParams)
        ensures
            r@ == self@.with(Constant::AttrApplicationTag, ValueView::Data(tag@)),
    {
        self.with_attr(&tag)
    }

    /// Sets the class of the key.
    pub fn key_class(self, value: AttrKeyClass) -> (r: KeyPairGenerateParams)
        ensures
            r@ == self@.with(Constant::AttrKeyClass, ValueView::Constant(value.constant())),
    {
        self.with_attr(&value)
    }

    /// Sets the label of the key, meant for people.
    pub fn label(self, label: AttrLabel) -> (r: KeyPairGenerateParams)
        ensures
            r@ == self@.with(Constant::AttrLabel, ValueView::String(label@)),
    {
        self.with_attr(&label)
    }

    /// Names the token that is to hold the private key. Of several calls the last one
    /// counts.
    pub fn token_id(self, value: AttrTokenId) -> (r: KeyPairGenerateParams)
        ensures
            r@ == (KeyPairGenerateParamsView { token_id: Some(value), ..self@ }),
    {
        proof {
            use_type_invariant(&self);
        }
        KeyPairGenerateParams {
            key_type: self.key_type,
            key_size: self.key_size,
            token_id: Some(value),
            attrs: self.attrs,
        }
    }

    /// Sets whether the key can derive other keys.
    pub fn can_derive(self, value: bool) -> (r: KeyPairGenerateParams)
        ensures
            r@ == self@.with(AttrKind::Derive.constant(), ValueView::Boolean(value)),
    {
        self.with_boolean(AttrKind::Derive, value)
    }

    /// Sets whether the key can decrypt.
    pub fn can_decrypt(self, value: bool) -> (r: KeyPairGenerateParams)
        ensures
            r@ == self@.with(AttrKind::Decrypt.constant(), ValueView::Boolean(value)),
    {
        self.with_boolean(AttrKind::Decrypt, value)
    }

    /// Sets whether the key can encrypt.
    pub fn can_encrypt(self, value: bool) -> (r: KeyPairGenerateParams)
        ensures
            r@ == self@.with(AttrKind::Encrypt.constant(), ValueView::Boolean(value)),
    {
        self.with_boolean(AttrKind::Encrypt, value)
    }

    /// Sets whether the key can sign.
    pub fn can_sign(self, value: bool) -> (r: KeyPairGenerateParams)
        ensures
            r@ == self@.with(AttrKind::Sign.constant(), ValueView::Boolean(value)),
    {
        self.with_boolean(AttrKind::Sign, value)
    }

    /// Sets whether the key can verify signatures.
    pub fn can_verify(self, value: bool) -> (r: KeyPairGenerateParams)
        ensures
            r@ == self@.with(AttrKind::Verify.constant(), ValueView::Boolean(value)),
    {
        self.with_boolean(AttrKind::Verify, value)
    }

    /// Sets whether the key can wrap other keys.
    pub fn can_wrap(self, value: bool) -> (r: KeyPairGenerateParams)
        ensures
            r@ == self@.with(AttrKind::Wrap.constant(), ValueView::Boolean(value)),
    {
        self.with_boolean(AttrKind::Wrap, value)
    }

    /// Sets whether the key can unwrap other keys.
    pub fn can_unwrap(self, value: bool) -> (r: KeyPairGenerateParams)
        ensures
            r@ == self@.with(AttrKind::Unwrap.constant(), ValueView::Boolean(value)),
    {
        self.with_boolean(AttrKind::Unwrap, value)
    }

    /// Sets whether the key can be exported.
    pub fn extractable(self, value: bool) -> (r: KeyPairGenerateParams)
        ensures
            r@ == self@.with(AttrKind::Extractable.constant(), ValueView::Boolean(value)),
    {
        self.with_boolean(AttrKind::Extractable, value)
    }

    /// Sets whether the key is stored in the keychain for good.
    pub fn permanent(self, value: bool) -> (r: KeyPairGenerateParams)
        ensures
            r@ == self@.with(AttrKind::Permanent.constant(), ValueView::Boolean(value)),
    {
        self.with_boolean(AttrKind::Permanent, value)
    }

    /// Sets whether the key may leave the keychain only when wrapped.
    pub fn sensitive(self, value: bool) -> (r: KeyPairGenerateParams)
        ensures
            r@ == self@.with(AttrKind::Sensitive.constant(), ValueView::Boolean(value)),
    {
        self.with_boolean(AttrKind::Sensitive, value)
    }

    /// Sets whether the key is synchronized between the devices of one account.
    pub fn synchronizable(self, value: bool) -> (r: KeyPairGenerateParams)
        ensures
            r@ == self@.with(AttrKind::Synchronizable.constant(), ValueView::Boolean(value)),
    {
        self.with_boolean(AttrKind::Synchronizable, value)
    }
    /// The dictionary of these parameters. Every attribute in it, on both levels, has
    /// a value of the shape that its key expects.
    pub fn into_dictionary(self) -> (r: Dictionary)
        ensures
            r@ == self@.parameters(),
            well_typed(r@),
            well_typed(self@.attrs),
    {
        proof {
            use_type_invariant(&self);
        }
        let mut result = DictionaryBuilder::new();
        result.add_attr(&self.key_type);
        proof {
            lemma_well_typed_push_attr(
                DictionaryView::empty(),
                AttrKind::KeyType,
                self.key_type.spec_value(),
            );
            lemma_well_typed_push_attr(
                result@,
                AttrKind::KeySizeInBits,
                ValueView::Number(self.key_size as i64),
            );
        }
        result.add_number(Constant::from(AttrKind::KeySizeInBits), self.key_size as i64);
        match self.token_id {
            Some(token) => {
                proof {
                    lemma_well_typed_push_attr(result@, AttrKind::TokenId, token.spec_value());
                }
                result.add_attr(&token);
            },
            None => {},
        }
        proof {
            lemma_well_typed_push_other(
                result@,
                Constant::PrivateKeyAttrs,
                ValueView::Dictionary(self.attrs@),
            );
        }
        result.add(Constant::PrivateKeyAttrs, Value::Dictionary(self.attrs.into_dictionary()));
        result.into_dictionary()
    }
}

impl Clone for KeyPairGenerateParams {
    fn clone(&self) -> (r: KeyPairGenerateParams)
        ensures
            r@ == self@,
    {
        proof {
            use_type_invariant(self);
        }
        KeyPairGenerateParams {
            key_type: self.key_type,
            key_size: self.key_size,
            token_id: self.token_id,
            attrs: self.attrs.clone(),
        }
    }
}

impl KeyPair {
    /// Says how a key pair is generated: by `SecKeyGeneratePair`, with the dictionary
    /// of the parameters.
    pub fn generate(params: KeyPairGenerateParams) -> (r: Call)
        ensures
            r@ == (CallView::KeyGeneratePair { parameters: params@.parameters() }),
            well_typed(params@.parameters()),
            well_typed(params@.attrs),
    {
        Call::KeyGeneratePair { parameters: params.into_dictionary() }
    }

    /// Takes what `SecKeyGeneratePair` handed back. A status other than success is
    /// the translated error, and the references are ignored. Success is the pair of the
    /// two references; the framework then owes both, so neither may be null.
    pub fn finish_generate(reply: &StatusReply, public_key: Handle, private_key: Handle) -> (r:
        Result<KeyPair, Error>)
        requires
            reply.status == errSecSuccess ==> !public_key.is_null() && !private_key.is_null(),
        ensures
            reply.status == errSecSuccess ==> (r matches Ok(pair) && pair.public_key.spec_handle()
                == public_key && pair.private_key.spec_handle() == private_key),
            reply.status != errSecSuccess ==> status_failure(r, *reply),
    {
        match Error::maybe_from_OSStatus(reply.status, reply.message.as_str()) {
            Some(error) => Err(error),
            None => Ok(
                KeyPair {
                    public_key: Key::from_handle(public_key),
                    private_key: Key::from_handle(private_key),
                },
            ),
        }
    }

    /// Says how a key pair is created: first the private key, by
    /// `SecKeyCreateRandomKey`, with the dictionary of the parameters.
    pub fn create(params: KeyPairGenerateParams) -> (r: Call)
        ensures
            r@ == (CallView::KeyCreateRandomKey { parameters: params@.parameters() }),
            well_typed(params@.parameters()),
            well_typed(params@.attrs),
    {
        Call::KeyCreateRandomKey { parameters: params.into_dictionary() }
    }

    /// Takes what `SecKeyCreateRandomKey` handed back. The error object is looked at
    /// first: where there is one, the result is the translated error, and the
    /// reference counts as unset, whatever it is. Without an error object the
    /// reference is the private key, which the framework then owes, and the result
    /// says how its public key is fetched: by `SecKeyCopyPublicKey`.
    pub fn finish_create(private_key: Handle, error: Option<&CFError>) -> (r: Result<Call, Error>)
        requires
            error is None ==> !private_key.is_null(),
        ensures
            match error {
                Some(object) => r matches Err(translated) && translated.translates_object(*object),
                None => r matches Ok(next) && next@ == (CallView::KeyCopyPublicKey {
                    key: private_key,
                }),
            },
    {
        match error {
            Some(object) => Err(Error::from_cf_error(object)),
            None => Ok(Call::KeyCopyPublicKey { key: private_key }),
        }
    }

    /// Takes what `SecKeyCopyPublicKey` handed back for a private key that was just
    /// created: the pair of the two keys. Neither reference may be null.
    pub fn finish_copy_public_key(private_key: Handle, public_key: Handle) -> (r: KeyPair)
        requires
            !private_key.is_null(),
            !public_key.is_null(),
        ensures
            r.public_key.spec_handle() == public_key,
            r.private_key.spec_handle() == private_key,
    {
        KeyPair {
            public_key: Key::from_handle(public_key),
            private_key: Key::from_handle(private_key),
        }
    }
}

/// The parameters for restoring a key from its exported bytes.
#[derive(Clone, Debug)]
pub struct RestoreKeyParams {
    /// The class of the key: public, private or symmetric.
    pub key_class: AttrKeyClass,
    /// The bytes of the key, in the format of its type: PKCS#1 for RSA; for an
    /// elliptic-curve key `04 || X || Y`, followed by `K` for a private key.
    pub key_data: Vec<u8>,
    /// The type of the key.
    pub key_type: AttrKeyType,
}

impl RestoreKeyParams {
    /// The attributes with which the key is restored: its type, its class, and its
    /// size in bits, which is eight times the number of its bytes.
    pub open spec fn spec_attributes(&self) -> DictionaryView {
        seq![
            (Constant::AttrKeyType, ValueView::Constant(self.key_type.constant())),
            (Constant::AttrKeyClass, ValueView::Constant(self.key_class.constant())),
            (Constant::AttrKeySizeInBits, ValueView::Number((self.key_data@.len() * 8) as i64)),
        ]
    }

    /// The attributes with which the key is restored. The size in bits has to fit the
    /// framework's signed 64-bit numbers.
    pub fn attributes(&self) -> (r: Dictionary)
        requires
            self.key_data@.len() * 8 <= i64::MAX,
        ensures
            r@ == self.spec_attributes(),
            well_typed(r@),
    {
        let mut result = DictionaryBuilder::new();
        let bits: u64 = (self.key_data.len() as u64) * 8;
        proof {
            lemma_well_typed_push_attr(
                DictionaryView::empty(),
                AttrKind::KeyType,
                self.key_type.spec_value(),
            );
        }
        result.add_attr(&self.key_type);
        proof {
            lemma_well_typed_push_attr(result@, AttrKind::KeyClass, self.key_class.spec_value());
        }
        result.add(
            Constant::from(AttrKind::KeyClass),
            Value::Constant(self.key_class.as_CFString()),
        );
        proof {
            lemma_well_typed_push_attr(
                result@,
                AttrKind::KeySizeInBits,
                ValueView::Number(bits as i64),
            );
        }
        result.add_number(Constant::from(AttrKind::KeySizeInBits), bits as i64);
        result.into_dictionary()
    }

    /// The bytes of the key.
    pub fn as_bytes(&self) -> (r: &[u8])
        ensures
            r@ == self.key_data@,
    {
        self.key_data.as_slice()
    }
}

} // verus!
