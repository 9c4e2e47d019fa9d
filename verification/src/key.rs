//! Keys of the keychain and what can be done with them.
//!
//! A [`Key`] is a reference to a key that the framework holds. There is a `Key` only
//! for a key that the framework handed out: [`Key::finish_find`],
//! [`crate::pair::KeyPair::finish_generate`] and
//! [`Key::finish_from_external_representation`] make one, and only from a call that
//! succeeded. Using a key leaves it as it is. [`Key::delete`] takes the key away from
//! the caller; letting a `Key` go out of scope gives up the reference and leaves the
//! key in the store.
//!
//! The library keeps no attribute of a key. Whoever wants one asks the framework anew
//! ([`Key::attributes`]) and reads it from the answer.

use crate::algorithm::KeyAlgorithm;
use crate::attr::{
    AttrApplicationLabel, AttrApplicationTag, AttrKeyClass, AttrKeyType, AttrKind, AttrLabel,
    TAttr,
};
use crate::call::{data_outcome, status_failure, Call, CallView, StatusReply};
use crate::ciphertext::Ciphertext;
use crate::constant::Constant;
use crate::dictionary::{
    lemma_well_typed_push_attr, lemma_well_typed_push_other, lookup, well_typed, Dictionary,
    DictionaryBuilder, DictionaryView, Value, ValueView,
};
use crate::error::{errSecItemNotFound, errSecSuccess, CFError, Error, ErrorKind};
use crate::handle::Handle;
use crate::item::Class;
use crate::operation::KeyOperation;
use crate::pair::RestoreKeyParams;
use crate::query::{SecItemQueryParams, SecMatchLimit};
use crate::signature::Signature;
use vstd::prelude::*;
use vstd::slice::slice_to_vec;

verus! {

/// The value with which `SecKeyVerifySignature` and `SecKeyIsAlgorithmSupported` say
/// yes.
pub const VERIFIED: u8 = 1;

/// A cryptographic key of the keychain, by its reference.
#[derive(Clone, Debug, PartialEq, Eq)]
pub struct Key {
    handle: Handle,
}

/// What a lookup of one key hands to `SecItemCopyMatching`: the filters of the query,
/// then the class of keys, the match limit of one, and the demand for a reference.
/// The three are added behind the filters, so they hold whatever the query says.
pub open spec fn find_parameters(query: DictionaryView) -> DictionaryView {
    query.push((Constant::Class, ValueView::Constant(Constant::ClassKey))).push(
        (Constant::MatchLimit, ValueView::Constant(Constant::MatchLimitOne)),
    ).push((Constant::ReturnRef, ValueView::Boolean(true)))
}

/// The bytes that a dictionary of attributes holds under a key, if it holds bytes.
pub open spec fn data_under(attributes: DictionaryView, key: Constant) -> Option<Seq<u8>> {
    match lookup(attributes, key) {
        Some(ValueView::Data(bytes)) => Some(bytes),
        _ => None,
    }
}

/// The text that a dictionary of attributes holds under a key, if it holds text.
pub open spec fn text_under(attributes: DictionaryView, key: Constant) -> Option<Seq<char>> {
    match lookup(attributes, key) {
        Some(ValueView::String(text)) => Some(text),
        _ => None,
    }
}

/// The class of the key whose attributes these are, if they say it.
pub open spec fn key_class_of(attributes: DictionaryView) -> Option<AttrKeyClass> {
    match lookup(attributes, Constant::AttrKeyClass) {
        Some(ValueView::Constant(constant)) => Some(AttrKeyClass::of_constant(constant)),
        Some(_) => Some(AttrKeyClass::Symmetric),
        None => None,
    }
}

/// The type of the key whose attributes these are, if they say it.
pub open spec fn key_type_of(attributes: DictionaryView) -> Option<AttrKeyType> {
    match lookup(attributes, Constant::AttrKeyType) {
        Some(ValueView::Constant(constant)) => Some(AttrKeyType::of_constant(constant)),
        Some(_) => Some(AttrKeyType::Aes),
        None => None,
    }
}

/// Whether the attributes of a key say enough to delete it: that it is a public or
/// a private key, and what identifies a key of that class. A symmetric key, and a key
/// whose class reads as symmetric, has nothing that identifies it.
pub open spec fn can_delete(attributes: DictionaryView) -> bool {
    match key_class_of(attributes) {
        Some(AttrKeyClass::Public) => key_type_of(attributes) is Some && data_under(
            attributes,
            Constant::AttrApplicationTag,
        ) is Some,
        Some(AttrKeyClass::Private) => data_under(attributes, Constant::AttrApplicationLabel)
            is Some,
        Some(AttrKeyClass::Symmetric) => false,
        None => false,
    }
}

/// What is said of a symmetric key that is to be deleted.
pub open spec fn no_identity() -> Seq<char> {
    "no attribute identifies a symmetric key"@
}

/// Why a key cannot be deleted: the first thing that its attributes would have to
/// say and do not.
pub open spec fn delete_refusal(attributes: DictionaryView) -> Seq<char>
    recommends
        !can_delete(attributes),
{
    match key_class_of(attributes) {
        None => "missing attribute "@ + AttrKind::KeyClass.name(),
        Some(AttrKeyClass::Public) => if key_type_of(attributes) is None {
            "missing attribute "@ + AttrKind::KeyType.name()
        } else {
            "missing attribute "@ + AttrKind::ApplicationTag.name()
        },
        Some(AttrKeyClass::Private) => "missing attribute "@ + AttrKind::ApplicationLabel.name(),
        Some(AttrKeyClass::Symmetric) => no_identity(),
    }
}

/// What deleting a key hands to `SecItemDelete`, given the attributes of the key. The
/// two classes of keys are identified differently: a public key by its type and its
/// application tag, a private key by its application label.
pub open spec fn delete_query(attributes: DictionaryView) -> DictionaryView
    recommends
        can_delete(attributes),
{
    let class = key_class_of(attributes).unwrap();
    let common = seq![
        (Constant::Class, ValueView::Constant(Constant::ClassKey)),
        (Constant::AttrKeyClass, ValueView::Constant(class.constant())),
    ];
    if class == AttrKeyClass::Public {
        common.push(
            (
                Constant::AttrKeyType,
                ValueView::Constant(key_type_of(attributes).unwrap().constant()),
            ),
        ).push(
            (
                Constant::AttrApplicationTag,
                ValueView::Data(data_under(attributes, Constant::AttrApplicationTag).unwrap()),
            ),
        )
    } else {
        common.push(
            (
                Constant::AttrApplicationLabel,
                ValueView::Data(data_under(attributes, Constant::AttrApplicationLabel).unwrap()),
            ),
        ).push((Constant::ReturnRef, ValueView::Boolean(true)))
    }
}

/// What deleting a key comes to before any call: the call of `SecItemDelete` with
/// the query of the key where its attributes identify it, and otherwise an error,
/// `NoSuchAttr`, that says what is missing.
pub open spec fn delete_outcome(r: Result<Call, Error>, attributes: DictionaryView) -> bool {
    if can_delete(attributes) {
        r matches Ok(call) && call@ == (CallView::ItemDelete { query: delete_query(attributes) })
    } else {
        r matches Err(error) && error.spec_kind() == ErrorKind::NoSuchAttr
            && error.spec_description() == delete_refusal(attributes)
    }
}

fn copy_data(attributes: &Dictionary, key: Constant) -> (r: Option<Vec<u8>>)
    ensures
        match data_under(attributes@, key) {
            Some(bytes) => r matches Some(copy) && copy@ == bytes,
            None => r is None,
        },
{
    match attributes.find(key) {
        Some(Value::Data(bytes)) => Some(slice_to_vec(bytes.as_slice())),
        _ => None,
    }
}

fn finish_data(data: Option<Vec<u8>>, error: Option<&CFError>) -> (r: Result<Vec<u8>, Error>)
    requires
        error is None ==> data is Some,
    ensures
        data_outcome(r, data, error),
{
    match error {
        None => Ok(data.unwrap()),
        Some(object) => Err(Error::from_cf_error(object)),
    }
}

impl Key {
    /// The reference of the key.
    pub closed spec fn spec_handle(&self) -> Handle {
        self.handle
    }

    /// The reference of the key.
    #[verifier::when_used_as_spec(spec_handle)]
    pub fn handle(&self) -> (r: Handle)
        ensures
            r == self.spec_handle(),
    {
        self.handle
    }

    pub(crate) fn from_handle(handle: Handle) -> (r: Key)
        ensures
            r.spec_handle() == handle,
    {
        Key { handle }
    }

    /// Says how one key is looked for: by `SecItemCopyMatching`, with the filters of
    /// the query and, behind them, the class of keys, a match limit of one and the
    /// demand for a reference. Which key comes back where several match is the
    /// framework's choice.
    pub fn find(query: SecItemQueryParams) -> (r: Call)
        ensures
            r@ == (CallView::ItemCopyMatching { query: find_parameters(query@) }),
            lookup(find_parameters(query@), Constant::Class) == Some(
                ValueView::Constant(Constant::ClassKey),
            ),
            lookup(find_parameters(query@), Constant::MatchLimit) == Some(
                ValueView::Constant(Constant::MatchLimitOne),
            ),
            lookup(find_parameters(query@), Constant::ReturnRef) == Some(ValueView::Boolean(true)),
            well_typed(find_parameters(query@)),
    {
        let mut params = query.into_builder();
        proof {
            Self::lemma_find_well_typed(query@);
        }
        params.add(Constant::Class, Value::Constant(Class::Key.as_CFString()));
        params.add(Constant::MatchLimit, SecMatchLimit::One.as_CFType());
        params.add_boolean(Constant::ReturnRef, true);
        proof {
            Self::lemma_find_forces(query@);
        }
        Call::ItemCopyMatching { query: params.into_dictionary() }
    }

    /// Whatever a query says, a lookup of one key asks for the class of keys, for one
    /// match and for a reference.
    pub proof fn lemma_find_forces(query: DictionaryView)
        ensures
            lookup(find_parameters(query), Constant::Class) == Some(
                ValueView::Constant(Constant::ClassKey),
            ),
            lookup(find_parameters(query), Constant::MatchLimit) == Some(
                ValueView::Constant(Constant::MatchLimitOne),
            ),
            lookup(find_parameters(query), Constant::ReturnRef) == Some(ValueView::Boolean(true)),
    {
        let a = query.push((Constant::Class, ValueView::Constant(Constant::ClassKey)));
        let b = a.push((Constant::MatchLimit, ValueView::Constant(Constant::MatchLimitOne)));
        let c = b.push((Constant::ReturnRef, ValueView::Boolean(true)));
        assert(c.drop_last() =~= b);
        assert(b.drop_last() =~= a);
        assert(lookup(b, Constant::Class) == lookup(a, Constant::Class));
        assert(lookup(c, Constant::MatchLimit) == lookup(b, Constant::MatchLimit));
    }

    /// A lookup of one key keeps the filters well typed: what it adds goes under keys
    /// that are the key of no attribute.
    pub proof fn lemma_find_well_typed(query: DictionaryView)
        requires
            well_typed(query),
        ensures
            well_typed(find_parameters(query)),
    {
        let a = query.push((Constant::Class, ValueView::Constant(Constant::ClassKey)));
        let b = a.push((Constant::MatchLimit, ValueView::Constant(Constant::MatchLimitOne)));
        lemma_well_typed_push_other(
            query,
            Constant::Class,
            ValueView::Constant(Constant::ClassKey),
        );
        lemma_well_typed_push_other(
            a,
            Constant::MatchLimit,
            ValueView::Constant(Constant::MatchLimitOne),
        );
        lemma_well_typed_push_other(b, Constant::ReturnRef, ValueView::Boolean(true));
    }

    /// Takes what `SecItemCopyMatching` handed back. A status other than success is
    /// the translated error, and the reference is ignored; where nothing matched, that
    /// error is `ItemNotFound`. Success is the key of the reference.
    pub fn finish_find(reply: &StatusReply, result: Handle) -> (r: Result<Key, Error>)
        ensures
            reply.status == errSecSuccess ==> (r matches Ok(key) && key.spec_handle() == result),
            reply.status != errSecSuccess ==> status_failure(r, *reply),
            reply.status == errSecItemNotFound ==> (r matches Err(error) && error.spec_kind()
                == ErrorKind::ItemNotFound),
    {
        proof {
            ErrorKind::lemma_of_status_round_trip(ErrorKind::ItemNotFound);
        }
        match Error::maybe_from_OSStatus(reply.status, reply.message.as_str()) {
            Some(error) => Err(error),
            None => Ok(Key { handle: result }),
        }
    }

    /// Says how the attributes of this key are fetched: by `SecKeyCopyAttributes`.
    pub fn attributes(&self) -> (r: Call)
        ensures
            r@ == (CallView::KeyCopyAttributes { key: self.spec_handle() }),
    {
        Call::KeyCopyAttributes { key: self.handle }
    }

    /// The application label among the attributes of this key, as fetched just now.
    pub fn application_label(&self, attributes: &Dictionary) -> (r: Option<AttrApplicationLabel>)
        ensures
            match data_under(attributes@, Constant::AttrApplicationLabel) {
                Some(bytes) => r matches Some(label) && label@ == bytes,
                None => r is None,
            },
    {
        match copy_data(attributes, Constant::AttrApplicationLabel) {
            Some(bytes) => Some(AttrApplicationLabel::new(bytes.as_slice())),
            None => None,
        }
    }

    /// The application tag among the attributes of this key, as fetched just now.
    pub fn application_tag(&self, attributes: &Dictionary) -> (r: Option<AttrApplicationTag>)
        ensures
            match data_under(attributes@, Constant::AttrApplicationTag) {
                Some(bytes) => r matches Some(tag) && tag@ == bytes,
                None => r is None,
            },
    {
        match copy_data(attributes, Constant::AttrApplicationTag) {
            Some(bytes) => Some(AttrApplicationTag::new(bytes.as_slice())),
            None => None,
        }
    }

    /// The label among the attributes of this key, as fetched just now.
    pub fn label(&self, attributes: &Dictionary) -> (r: Option<AttrLabel>)
        ensures
            match text_under(attributes@, Constant::AttrLabel) {
                Some(text) => r matches Some(label) && label@ == text,
                None => r is None,
            },
    {
        match attributes.find(Constant::AttrLabel) {
            Some(Value::String(text)) => Some(AttrLabel::new(text.as_str())),
            _ => None,
        }
    }

    /// The class among the attributes of this key, as fetched just now. A value that
    /// is neither the public nor the private class is read as the symmetric class.
    pub fn class(&self, attributes: &Dictionary) -> (r: Option<AttrKeyClass>)
        ensures
            r == key_class_of(attributes@),
    {
        match attributes.find(Constant::AttrKeyClass) {
            Some(Value::Constant(constant)) => Some(AttrKeyClass::from(*constant)),
            Some(_) => Some(AttrKeyClass::Symmetric),
            None => None,
        }
    }

    /// The type among the attributes of this key, as fetched just now. A value that is
    /// neither the elliptic-curve nor the RSA type is read as AES.
    pub fn key_type(&self, attributes: &Dictionary) -> (r: Option<AttrKeyType>)
        ensures
            r == key_type_of(attributes@),
    {
        match attributes.find(Constant::AttrKeyType) {
            Some(Value::Constant(constant)) => Some(AttrKeyType::from(*constant)),
            Some(_) => Some(AttrKeyType::Aes),
            None => None,
        }
    }

    /// Says how the key is asked whether it can do an operation with an algorithm: by
    /// `SecKeyIsAlgorithmSupported`.
    pub fn is_supported(&self, operation: KeyOperation, alg: KeyAlgorithm) -> (r: Call)
        ensures
            r@ == (CallView::KeyIsAlgorithmSupported {
                key: self.spec_handle(),
                operation: operation.index(),
                algorithm: alg.constant(),
            }),
    {
        Call::KeyIsAlgorithmSupported {
            key: self.handle,
            operation: operation.to_CFIndex(),
            algorithm: alg.as_CFString(),
        }
    }

    /// Takes what `SecKeyIsAlgorithmSupported` handed back: yes only for the value one.
    pub fn finish_is_supported(result: u8) -> (r: bool)
        ensures
            r == (result == VERIFIED),
    {
        result == VERIFIED
    }

    /// Says how data is signed with this key: by `SecKeyCreateSignature`.
    pub fn sign(&self, alg: KeyAlgorithm, data: &[u8]) -> (r: Call)
        ensures
            r@ == (CallView::KeyCreateSignature {
                key: self.spec_handle(),
                algorithm: alg.constant(),
                data_to_sign: data@,
            }),
    {
        Call::KeyCreateSignature {
            key: self.handle,
            algorithm: alg.as_CFString(),
            data_to_sign: slice_to_vec(data),
        }
    }

    /// Takes what `SecKeyCreateSignature` handed back. With an error object the result
    /// is the translated error; without one it is the signature of the bytes, and it
    /// carries the algorithm that was asked for.
    pub fn finish_sign(
        alg: KeyAlgorithm,
        signature: Option<Vec<u8>>,
        error: Option<&CFError>,
    ) -> (r: Result<Signature, Error>)
        requires
            error is None ==> signature is Some,
        ensures
            match error {
                None => r matches Ok(made) && signature matches Some(bytes) && made@ == (
                    alg,
                    bytes@,
                ),
                Some(object) => r matches Err(translated) && translated.translates_object(*object),
            },
    {
        match finish_data(signature, error) {
            Ok(bytes) => Ok(Signature::new(alg, bytes)),
            Err(translated) => Err(translated),
        }
    }

    /// Says how a signature is verified with this key: by `SecKeyVerifySignature`, with
    /// the algorithm given here. A signature that another algorithm made is for the
    /// framework to refuse.
    pub fn verify(&self, alg: KeyAlgorithm, signed_data: &[u8], signature: &Signature) -> (r: Call)
        ensures
            r@ == (CallView::KeyVerifySignature {
                key: self.spec_handle(),
                algorithm: alg.constant(),
                signed_data: signed_data@,
                signature: signature@.1,
            }),
    {
        Call::KeyVerifySignature {
            key: self.handle,
            algorithm: alg.as_CFString(),
            signed_data: slice_to_vec(signed_data),
            signature: signature.to_vec(),
        }
    }

    /// Takes what `SecKeyVerifySignature` handed back. With an error object the result
    /// is the translated error. Without one it says whether the signature is good:
    /// yes only for the value one, no for every other value.
    pub fn finish_verify(result: u8, error: Option<&CFError>) -> (r: Result<bool, Error>)
        ensures
            match error {
                None => r == Ok::<bool, Error>(result == VERIFIED),
                Some(object) => r matches Err(translated) && translated.translates_object(*object),
            },
    {
        match error {
            None => Ok(result == VERIFIED),
            Some(object) => Err(Error::from_cf_error(object)),
        }
    }

    /// Says how data is encrypted with this key: by `SecKeyCreateEncryptedData`.
    pub fn encrypt(&self, alg: KeyAlgorithm, plaintext: &[u8]) -> (r: Call)
        ensures
            r@ == (CallView::KeyCreateEncryptedData {
                key: self.spec_handle(),
                algorithm: alg.constant(),
                plaintext: plaintext@,
            }),
    {
        Call::KeyCreateEncryptedData {
            key: self.handle,
            algorithm: alg.as_CFString(),
            plaintext: slice_to_vec(plaintext),
        }
    }

    /// Takes what `SecKeyCreateEncryptedData` handed back. With an error object the
    /// result is the translated error; without one it is the ciphertext of the bytes,
    /// and it carries the algorithm that was asked for.
    pub fn finish_encrypt(
        alg: KeyAlgorithm,
        ciphertext: Option<Vec<u8>>,
        error: Option<&CFError>,
    ) -> (r: Result<Ciphertext, Error>)
        requires
            error is None ==> ciphertext is Some,
        ensures
            match error {
                None => r matches Ok(made) && ciphertext matches Some(bytes) && made@ == (
                    alg,
                    bytes@,
                ),
                Some(object) => r matches Err(translated) && translated.translates_object(*object),
            },
    {
        match finish_data(ciphertext, error) {
            Ok(bytes) => Ok(Ciphertext::new(alg, bytes)),
            Err(translated) => Err(translated),
        }
    }

    /// Says how a ciphertext is decrypted with this key: by
    /// `SecKeyCreateDecryptedData`, with the algorithm that the ciphertext carries.
    pub fn decrypt(&self, ciphertext: Ciphertext) -> (r: Call)
        ensures
            r@ == (CallView::KeyCreateDecryptedData {
                key: self.spec_handle(),
                algorithm: ciphertext@.0.constant(),
                ciphertext: ciphertext@.1,
            }),
    {
        let algorithm = ciphertext.algorithm().as_CFString();
        Call::KeyCreateDecryptedData {
            key: self.handle,
            algorithm,
            ciphertext: ciphertext.into_vec(),
        }
    }

    /// Takes what `SecKeyCreateDecryptedData` handed back: the translated error where
    /// there is an error object, and the plaintext where there is none.
    pub fn finish_decrypt(plaintext: Option<Vec<u8>>, error: Option<&CFError>) -> (r: Result<
        Vec<u8>,
        Error,
    >)
        requires
            error is None ==> plaintext is Some,
        ensures
            data_outcome(r, plaintext, error),
    {
        finish_data(plaintext, error)
    }

    /// Whether the attributes of this key, as fetched just now, say enough to delete
    /// it: that it is a public or a private key, and what identifies a key of that
    /// class. [`Key::delete`] takes the key; asking first keeps it.
    pub fn can_delete(&self, attributes: &Dictionary) -> (r: bool)
        ensures
            r == can_delete(attributes@),
    {
        match self.class(attributes) {
            Some(AttrKeyClass::Public) => self.key_type(attributes).is_some() && copy_data(
                attributes,
                Constant::AttrApplicationTag,
            ).is_some(),
            Some(AttrKeyClass::Private) => copy_data(
                attributes,
                Constant::AttrApplicationLabel,
            ).is_some(),
            Some(AttrKeyClass::Symmetric) => false,
            None => false,
        }
    }

    /// Says how this key is deleted from the keychain: by `SecItemDelete`, with a
    /// query made from the attributes of the key as fetched just now. A public key is
    /// named by its type and its application tag, a private key by its application
    /// label. Where the attributes do not say the class of the key, or not what names
    /// a key of that class, and for a symmetric key, which nothing names, there is no
    /// call: the result is an error, so that no query goes out that could match
    /// another key.
    pub fn delete(self, attributes: &Dictionary) -> (r: Result<Call, Error>)
        ensures
            delete_outcome(r, attributes@),
            r matches Ok(call) ==> well_typed(delete_query(attributes@)),
    {
        let key_class = match self.class(attributes) {
            Some(class) => class,
            None => {
                return Err(Error::missing_attribute(AttrKind::KeyClass));
            },
        };
        let mut query = DictionaryBuilder::new();
        query.add(Constant::Class, Value::Constant(Class::Key.as_CFString()));
        query.add(Constant::AttrKeyClass, Value::Constant(key_class.as_CFString()));
        match key_class {
            AttrKeyClass::Public => {
                let key_type = match self.key_type(attributes) {
                    Some(key_type) => key_type,
                    None => {
                        return Err(Error::missing_attribute(AttrKind::KeyType));
                    },
                };
                let tag = match copy_data(attributes, Constant::AttrApplicationTag) {
                    Some(tag) => tag,
                    None => {
                        return Err(Error::missing_attribute(AttrKind::ApplicationTag));
                    },
                };
                query.add(Constant::AttrKeyType, Value::Constant(key_type.as_CFString()));
                query.add(Constant::AttrApplicationTag, Value::Data(tag));
            },
            AttrKeyClass::Private => {
                let label = match copy_data(attributes, Constant::AttrApplicationLabel) {
                    Some(label) => label,
                    None => {
                        return Err(Error::missing_attribute(AttrKind::ApplicationLabel));
                    },
                };
                query.add(Constant::AttrApplicationLabel, Value::Data(label));
                query.add_boolean(Constant::ReturnRef, true);
            },
            AttrKeyClass::Symmetric => {
                return Err(
                    Error::new(ErrorKind::NoSuchAttr, "no attribute identifies a symmetric key"),
                );
            },
        }
        proof {
            Self::lemma_delete_well_typed(attributes@);
            assert(query@ =~= delete_query(attributes@));
        }
        Ok(Call::ItemDelete { query: query.into_dictionary() })
    }

    /// Takes what `SecItemDelete` handed back: nothing for success, and the translated
    /// error for every other status.
    pub fn finish_delete(reply: &StatusReply) -> (r: Result<(), Error>)
        ensures
            reply.status == errSecSuccess ==> r is Ok,
            reply.status != errSecSuccess ==> status_failure(r, *reply),
    {
        match Error::maybe_from_OSStatus(reply.status, reply.message.as_str()) {
            Some(error) => Err(error),
            None => Ok(()),
        }
    }

    /// Says how this key is exported: by `SecKeyCopyExternalRepresentation`.
    pub fn to_external_representation(&self) -> (r: Call)
        ensures
            r@ == (CallView::KeyCopyExternalRepresentation { key: self.spec_handle() }),
    {
        Call::KeyCopyExternalRepresentation { key: self.handle }
    }

    /// Takes what `SecKeyCopyExternalRepresentation` handed back: the translated error
    /// where there is an error object, as for a key that cannot be exported, and the
    /// bytes of the key where there is none.
    pub fn finish_to_external_representation(
        data: Option<Vec<u8>>,
        error: Option<&CFError>,
    ) -> (r: Result<Vec<u8>, Error>)
        requires
            error is None ==> data is Some,
        ensures
            data_outcome(r, data, error),
    {
        finish_data(data, error)
    }

    /// Says how a key is restored from its exported bytes: by `SecKeyCreateWithData`,
    /// with the bytes and the attributes that the parameters give.
    pub fn from_external_representation(params: RestoreKeyParams) -> (r: Call)
        requires
            params.key_data@.len() * 8 <= i64::MAX,
        ensures
            r@ == (CallView::KeyCreateWithData {
                key_data: params.key_data@,
                attributes: params.spec_attributes(),
            }),
            well_typed(params.spec_attributes()),
    {
        let attributes = params.attributes();
        Call::KeyCreateWithData { key_data: params.key_data, attributes }
    }

    /// Takes what `SecKeyCreateWithData` handed back: the translated error where there
    /// is an error object, as for bytes that are no key of the class that was named,
    /// and the key of the reference where there is none.
    pub fn finish_from_external_representation(result: Handle, error: Option<&CFError>) -> (r:
        Result<Key, Error>)
        ensures
            match error {
                None => r matches Ok(key) && key.spec_handle() == result,
                Some(object) => r matches Err(translated) && translated.translates_object(*object),
            },
    {
        match error {
            None => Ok(Key { handle: result }),
            Some(object) => Err(Error::from_cf_error(object)),
        }
    }

    /// The query that deletes a key is well typed: class, type, tag and label go in
    /// the shapes that their keys expect.
    pub proof fn lemma_delete_well_typed(attributes: DictionaryView)
        requires
            can_delete(attributes),
        ensures
            well_typed(delete_query(attributes)),
    {
        let class = key_class_of(attributes).unwrap();
        let a = seq![(Constant::Class, ValueView::Constant(Constant::ClassKey))];
        assert(a =~= DictionaryView::empty().push(
            (Constant::Class, ValueView::Constant(Constant::ClassKey)),
        ));
        lemma_well_typed_push_other(
            DictionaryView::empty(),
            Constant::Class,
            ValueView::Constant(Constant::ClassKey),
        );
        lemma_well_typed_push_attr(a, AttrKind::KeyClass, class.spec_value());
        let b = a.push((Constant::AttrKeyClass, ValueView::Constant(class.constant())));
        assert(b =~= seq![
            (Constant::Class, ValueView::Constant(Constant::ClassKey)),
            (Constant::AttrKeyClass, ValueView::Constant(class.constant())),
        ]);
        match class {
            AttrKeyClass::Public => {
                let key_type = key_type_of(attributes).unwrap();
                let tag = data_under(attributes, Constant::AttrApplicationTag).unwrap();
                lemma_well_typed_push_attr(b, AttrKind::KeyType, key_type.spec_value());
                lemma_well_typed_push_attr(
                    b.push((Constant::AttrKeyType, key_type.spec_value())),
                    AttrKind::ApplicationTag,
                    ValueView::Data(tag),
                );
            },
            _ => {
                let label = data_under(attributes, Constant::AttrApplicationLabel).unwrap();
                lemma_well_typed_push_attr(b, AttrKind::ApplicationLabel, ValueView::Data(label));
                lemma_well_typed_push_other(
                    b.push((Constant::AttrApplicationLabel, ValueView::Data(label))),
                    Constant::ReturnRef,
                    ValueView::Boolean(true),
                );
            },
        }
    }

    /// A private key is deleted by its application label and not by its application
    /// tag; a public key by its type and its application tag and not by its
    /// application label. Every query that deletes a key names the key by one of the
    /// two.
    pub proof fn lemma_delete_identity(attributes: DictionaryView)
        requires
            can_delete(attributes),
        ensures
            key_class_of(attributes) == Some(AttrKeyClass::Private) ==> {
                &&& lookup(delete_query(attributes), Constant::AttrApplicationLabel) == Some(
                    ValueView::Data(
                        data_under(attributes, Constant::AttrApplicationLabel).unwrap(),
                    ),
                )
                &&& lookup(delete_query(attributes), Constant::AttrApplicationTag) is None
                &&& lookup(delete_query(attributes), Constant::AttrKeyType) is None
            },
            key_class_of(attributes) == Some(AttrKeyClass::Public) ==> {
                &&& lookup(delete_query(attributes), Constant::AttrApplicationTag) == Some(
                    ValueView::Data(data_under(attributes, Constant::AttrApplicationTag).unwrap()),
                )
                &&& lookup(delete_query(attributes), Constant::AttrKeyType) == Some(
                    ValueView::Constant(key_type_of(attributes).unwrap().constant()),
                )
                &&& lookup(delete_query(attributes), Constant::AttrApplicationLabel) is None
            },
            lookup(delete_query(attributes), Constant::Class) == Some(
                ValueView::Constant(Constant::ClassKey),
            ),
            lookup(delete_query(attributes), Constant::AttrKeyClass) == Some(
                ValueView::Constant(key_class_of(attributes).unwrap().constant()),
            ),
            key_class_of(attributes) == Some(AttrKeyClass::Private) || key_class_of(attributes)
                == Some(AttrKeyClass::Public),
    {
        reveal_with_fuel(lookup, 5);
    }
}

} // verus!
