use keychain_services::{
    AttrApplicationLabel, AttrApplicationTag, AttrKeyClass, AttrKeyType, AttrLabel, AttrTokenId,
    CFError, Call, Ciphertext, Constant, Dictionary, DictionaryBuilder, ErrorKind,
    GeneratePairParams, Handle, Key, KeyAlgorithm, KeyPair, KeyPairGenerateParams, Query,
    RestoreKeyParams, Signature, StatusReply, Value,
};

fn success() -> StatusReply {
    StatusReply { status: 0, message: String::from("No error.") }
}

fn status(code: i32, message: &str) -> StatusReply {
    StatusReply { status: code, message: String::from(message) }
}

fn key(raw: usize) -> Key {
    Key::finish_find(&success(), Handle::new(raw)).unwrap()
}

fn attributes(pairs: Vec<(Constant, Value)>) -> Dictionary {
    let mut builder = DictionaryBuilder::new();
    for (key, value) in pairs {
        builder.add(key, value);
    }
    builder.into_dictionary()
}

#[test]
fn a_lookup_forces_class_limit_and_reference() {
    let call = Key::find(Query::new());
    let expected = attributes(vec![
        (Constant::Class, Value::Constant(Constant::ClassKey)),
        (Constant::MatchLimit, Value::Constant(Constant::MatchLimitOne)),
        (Constant::ReturnRef, Value::Boolean(true)),
    ]);
    assert_eq!(call, Call::ItemCopyMatching { query: expected });
}

#[test]
fn a_lookup_overrides_a_match_limit_of_the_query() {
    let query = Query::new()
        .application_tag(AttrApplicationTag::from_str("tag"))
        .match_limit(keychain_services::MatchLimit::All);
    match Key::find(query) {
        Call::ItemCopyMatching { query } => {
            assert_eq!(query.len(), 5);
            assert_eq!(
                query.find(Constant::MatchLimit),
                Some(&Value::Constant(Constant::MatchLimitOne))
            );
            assert_eq!(query.find(Constant::Class), Some(&Value::Constant(Constant::ClassKey)));
            assert_eq!(query.find(Constant::ReturnRef), Some(&Value::Boolean(true)));
            assert_eq!(
                query.find(Constant::AttrApplicationTag),
                Some(&Value::Data(b"tag".to_vec()))
            );
        }
        other => panic!("unexpected call: {:?}", other),
    }
}

#[test]
fn a_lookup_that_matches_nothing_fails_with_item_not_found() {
    let reply = status(-25300, "The specified item could not be found in the keychain.");
    let error = Key::finish_find(&reply, Handle::null()).unwrap_err();
    assert_eq!(*error.kind(), ErrorKind::ItemNotFound);
    assert_eq!(
        error.description(),
        "The specified item could not be found in the keychain."
    );
}

#[test]
fn a_failed_lookup_ignores_the_reference() {
    let reply = status(-25293, "The user name or passphrase you entered is not correct.");
    let res = Key::finish_find(&reply, Handle::new(0xdead));
    assert_eq!(*res.unwrap_err().kind(), ErrorKind::AuthFailed);
    let reply = status(-128, "User canceled the operation.");
    let res = Key::finish_find(&reply, Handle::new(0xdead));
    assert_eq!(*res.unwrap_err().kind(), ErrorKind::OSError { code: -128 });
}

#[test]
fn a_lookup_that_succeeds_gives_the_key_of_the_reference() {
    let found = Key::finish_find(&success(), Handle::new(0x1234)).unwrap();
    assert_eq!(found.handle(), Handle::new(0x1234));
    assert_eq!(found.attributes(), Call::KeyCopyAttributes { key: Handle::new(0x1234) });
}

#[test]
fn attributes_are_read_from_what_the_framework_reports() {
    let key = key(1);
    let reported = attributes(vec![
        (Constant::AttrKeyClass, Value::Constant(Constant::AttrKeyClassPrivate)),
        (Constant::AttrKeyType, Value::Constant(Constant::AttrKeyTypeRSA)),
        (Constant::AttrApplicationLabel, Value::Data(vec![9, 8, 7])),
        (Constant::AttrApplicationTag, Value::Data(b"tag".to_vec())),
        (Constant::AttrLabel, Value::String(String::from("my key"))),
        (Constant::AttrKeySizeInBits, Value::Number(2048)),
    ]);
    assert_eq!(key.class(&reported), Some(AttrKeyClass::Private));
    assert_eq!(key.key_type(&reported), Some(AttrKeyType::Rsa));
    assert_eq!(
        key.application_label(&reported),
        Some(AttrApplicationLabel::new(&[9, 8, 7]))
    );
    assert_eq!(key.application_tag(&reported), Some(AttrApplicationTag::new(b"tag")));
    assert_eq!(key.label(&reported), Some(AttrLabel::new("my key")));
}

#[test]
fn attributes_that_are_not_reported_are_none() {
    let key = key(1);
    let reported = attributes(vec![]);
    assert_eq!(key.class(&reported), None);
    assert_eq!(key.key_type(&reported), None);
    assert_eq!(key.application_label(&reported), None);
    assert_eq!(key.application_tag(&reported), None);
    assert_eq!(key.label(&reported), None);
}

#[test]
fn attributes_of_another_shape_are_not_taken() {
    let key = key(1);
    let reported = attributes(vec![
        (Constant::AttrKeyClass, Value::String(String::from("1"))),
        (Constant::AttrKeyType, Value::Number(42)),
        (Constant::AttrApplicationLabel, Value::String(String::from("text"))),
        (Constant::AttrApplicationTag, Value::Boolean(true)),
        (Constant::AttrLabel, Value::Data(vec![1])),
    ]);
    assert_eq!(key.class(&reported), Some(AttrKeyClass::Symmetric));
    assert_eq!(key.key_type(&reported), Some(AttrKeyType::Aes));
    assert_eq!(key.application_label(&reported), None);
    assert_eq!(key.application_tag(&reported), None);
    assert_eq!(key.label(&reported), None);
}

#[test]
fn a_private_key_is_deleted_by_its_application_label() {
    let reported = attributes(vec![
        (Constant::AttrKeyClass, Value::Constant(Constant::AttrKeyClassPrivate)),
        (Constant::AttrKeyType, Value::Constant(Constant::AttrKeyTypeECSECPrimeRandom)),
        (Constant::AttrApplicationLabel, Value::Data(vec![1, 2, 3, 4])),
        (Constant::AttrApplicationTag, Value::Data(b"the tag".to_vec())),
    ]);
    let call = key(0x10).delete(&reported).unwrap();
    let expected = attributes(vec![
        (Constant::Class, Value::Constant(Constant::ClassKey)),
        (Constant::AttrKeyClass, Value::Constant(Constant::AttrKeyClassPrivate)),
        (Constant::AttrApplicationLabel, Value::Data(vec![1, 2, 3, 4])),
        (Constant::ReturnRef, Value::Boolean(true)),
    ]);
    assert_eq!(call, Call::ItemDelete { query: expected });
    match call {
        Call::ItemDelete { query } => {
            assert!(!query.contains_key(Constant::AttrApplicationTag));
            assert!(!query.contains_key(Constant::AttrKeyType));
        }
        other => panic!("unexpected call: {:?}", other),
    }
}

#[test]
fn a_public_key_is_deleted_by_its_type_and_application_tag() {
    let reported = attributes(vec![
        (Constant::AttrKeyClass, Value::Constant(Constant::AttrKeyClassPublic)),
        (Constant::AttrKeyType, Value::Constant(Constant::AttrKeyTypeECSECPrimeRandom)),
        (Constant::AttrApplicationLabel, Value::Data(vec![1, 2, 3, 4])),
        (Constant::AttrApplicationTag, Value::Data(b"the tag".to_vec())),
    ]);
    let call = key(0x11).delete(&reported).unwrap();
    let expected = attributes(vec![
        (Constant::Class, Value::Constant(Constant::ClassKey)),
        (Constant::AttrKeyClass, Value::Constant(Constant::AttrKeyClassPublic)),
        (Constant::AttrKeyType, Value::Constant(Constant::AttrKeyTypeECSECPrimeRandom)),
        (Constant::AttrApplicationTag, Value::Data(b"the tag".to_vec())),
    ]);
    assert_eq!(call, Call::ItemDelete { query: expected });
    match call {
        Call::ItemDelete { query } => {
            assert!(!query.contains_key(Constant::AttrApplicationLabel));
            assert!(!query.contains_key(Constant::ReturnRef));
        }
        other => panic!("unexpected call: {:?}", other),
    }
}

#[test]
fn deleting_one_key_of_a_pair_does_not_name_the_other() {
    let label = vec![7u8; 20];
    let private = attributes(vec![
        (Constant::AttrKeyClass, Value::Constant(Constant::AttrKeyClassPrivate)),
        (Constant::AttrKeyType, Value::Constant(Constant::AttrKeyTypeRSA)),
        (Constant::AttrApplicationLabel, Value::Data(label.clone())),
        (Constant::AttrApplicationTag, Value::Data(b"pair".to_vec())),
    ]);
    let public = attributes(vec![
        (Constant::AttrKeyClass, Value::Constant(Constant::AttrKeyClassPublic)),
        (Constant::AttrKeyType, Value::Constant(Constant::AttrKeyTypeRSA)),
        (Constant::AttrApplicationLabel, Value::Data(label)),
        (Constant::AttrApplicationTag, Value::Data(b"pair".to_vec())),
    ]);
    let delete_private = key(1).delete(&private).unwrap();
    let delete_public = key(2).delete(&public).unwrap();
    assert_ne!(delete_private, delete_public);
    match (delete_private, delete_public) {
        (Call::ItemDelete { query: first }, Call::ItemDelete { query: second }) => {
            assert_eq!(
                first.find(Constant::AttrKeyClass),
                Some(&Value::Constant(Constant::AttrKeyClassPrivate))
            );
            assert_eq!(
                second.find(Constant::AttrKeyClass),
                Some(&Value::Constant(Constant::AttrKeyClassPublic))
            );
        }
        other => panic!("unexpected calls: {:?}", other),
    }
}

#[test]
fn a_symmetric_key_is_not_deleted_for_nothing_names_it() {
    let reported = attributes(vec![
        (Constant::AttrKeyClass, Value::Constant(Constant::AttrKeyClassSymmetric)),
        (Constant::AttrApplicationLabel, Value::Data(vec![1])),
        (Constant::AttrApplicationTag, Value::Data(vec![2])),
    ]);
    assert!(!key(3).can_delete(&reported));
    let error = key(3).delete(&reported).unwrap_err();
    assert_eq!(*error.kind(), ErrorKind::NoSuchAttr);
    assert_eq!(error.description(), "no attribute identifies a symmetric key");
    let unknown = attributes(vec![
        (Constant::AttrKeyClass, Value::String(String::from("7"))),
        (Constant::AttrApplicationLabel, Value::Data(vec![1])),
    ]);
    let error = key(3).delete(&unknown).unwrap_err();
    assert_eq!(error.description(), "no attribute identifies a symmetric key");
}

#[test]
fn a_key_that_does_not_say_what_names_it_is_not_deleted() {
    let without_class = attributes(vec![
        (Constant::AttrKeyType, Value::Constant(Constant::AttrKeyTypeRSA)),
        (Constant::AttrApplicationLabel, Value::Data(vec![1])),
        (Constant::AttrApplicationTag, Value::Data(vec![2])),
    ]);
    let error = key(4).delete(&without_class).unwrap_err();
    assert_eq!(*error.kind(), ErrorKind::NoSuchAttr);
    assert_eq!(error.description(), "missing attribute KeyClass");
    assert_eq!(error.to_string(), "missing attribute KeyClass (no such attr)");

    let public_without_type = attributes(vec![
        (Constant::AttrKeyClass, Value::Constant(Constant::AttrKeyClassPublic)),
        (Constant::AttrApplicationTag, Value::Data(vec![2])),
    ]);
    let error = key(4).delete(&public_without_type).unwrap_err();
    assert_eq!(*error.kind(), ErrorKind::NoSuchAttr);
    assert_eq!(error.description(), "missing attribute KeyType");

    let public_without_tag = attributes(vec![
        (Constant::AttrKeyClass, Value::Constant(Constant::AttrKeyClassPublic)),
        (Constant::AttrKeyType, Value::Constant(Constant::AttrKeyTypeRSA)),
        (Constant::AttrApplicationLabel, Value::Data(vec![1])),
    ]);
    let error = key(4).delete(&public_without_tag).unwrap_err();
    assert_eq!(*error.kind(), ErrorKind::NoSuchAttr);
    assert_eq!(error.description(), "missing attribute ApplicationTag");

    let public_without_both = attributes(vec![(
        Constant::AttrKeyClass,
        Value::Constant(Constant::AttrKeyClassPublic),
    )]);
    let error = key(4).delete(&public_without_both).unwrap_err();
    assert_eq!(error.description(), "missing attribute KeyType");

    let private_without_label = attributes(vec![
        (Constant::AttrKeyClass, Value::Constant(Constant::AttrKeyClassPrivate)),
        (Constant::AttrKeyType, Value::Constant(Constant::AttrKeyTypeRSA)),
        (Constant::AttrApplicationTag, Value::Data(vec![2])),
    ]);
    let error = key(4).delete(&private_without_label).unwrap_err();
    assert_eq!(*error.kind(), ErrorKind::NoSuchAttr);
    assert_eq!(error.description(), "missing attribute ApplicationLabel");

    let tag_of_another_shape = attributes(vec![
        (Constant::AttrKeyClass, Value::Constant(Constant::AttrKeyClassPublic)),
        (Constant::AttrKeyType, Value::Constant(Constant::AttrKeyTypeRSA)),
        (Constant::AttrApplicationTag, Value::String(String::from("tag"))),
    ]);
    let error = key(4).delete(&tag_of_another_shape).unwrap_err();
    assert_eq!(error.description(), "missing attribute ApplicationTag");

    let error = key(4).delete(&attributes(vec![])).unwrap_err();
    assert_eq!(error.description(), "missing attribute KeyClass");
}

#[test]
fn the_outcome_of_deleting_follows_the_status() {
    assert!(Key::finish_delete(&success()).is_ok());
    let error = Key::finish_delete(&status(-25300, "not found")).unwrap_err();
    assert_eq!(*error.kind(), ErrorKind::ItemNotFound);
    let error = Key::finish_delete(&status(-34018, "missing entitlement")).unwrap_err();
    assert_eq!(*error.kind(), ErrorKind::MissingEntitlement);
    assert_eq!(error.description(), "missing entitlement");
}

#[test]
fn verification_is_true_only_for_the_value_one() {
    assert_eq!(Key::finish_verify(1, None).unwrap(), true);
    assert_eq!(Key::finish_verify(0, None).unwrap(), false);
    assert_eq!(Key::finish_verify(2, None).unwrap(), false);
    assert_eq!(Key::finish_verify(255, None).unwrap(), false);
    assert!(Key::finish_is_supported(1));
    assert!(!Key::finish_is_supported(0));
    assert!(!Key::finish_is_supported(2));
}

#[test]
fn an_error_object_wins_over_a_result() {
    let object = CFError {
        code: -67808,
        domain: String::from("NSOSStatusErrorDomain"),
        description: String::from("verify failed"),
    };
    let error = Key::finish_verify(1, Some(&object)).unwrap_err();
    assert_eq!(
        *error.kind(),
        ErrorKind::CFError { code: -67808, domain: String::from("NSOSStatusErrorDomain") }
    );
    let res = Key::finish_sign(
        KeyAlgorithm::ECDSASignatureRFC4754,
        Some(vec![1, 2, 3]),
        Some(&object),
    );
    assert!(res.is_err());
    let res = Key::finish_to_external_representation(Some(vec![1]), Some(&object));
    assert_eq!(res.unwrap_err().description(), "verify failed");
}

#[test]
fn a_key_that_cannot_be_exported_gives_the_error() {
    let object = CFError {
        code: -25292,
        domain: String::from("NSOSStatusErrorDomain"),
        description: String::from("export not supported"),
    };
    let error = Key::finish_to_external_representation(None, Some(&object)).unwrap_err();
    assert_eq!(
        *error.kind(),
        ErrorKind::CFError { code: -25292, domain: String::from("NSOSStatusErrorDomain") }
    );
}

#[test]
fn verifying_uses_the_algorithm_that_is_given() {
    let signature = Signature::new(KeyAlgorithm::ECDSASignatureMessageX962SHA256, vec![1, 2]);
    let call = key(5).verify(KeyAlgorithm::RSASignatureRaw, b"data", &signature);
    assert_eq!(
        call,
        Call::KeyVerifySignature {
            key: Handle::new(5),
            algorithm: Constant::KeyAlgorithmRSASignatureRaw,
            signed_data: b"data".to_vec(),
            signature: vec![1, 2],
        }
    );
}

#[test]
fn signatures_and_ciphertexts_keep_algorithm_and_bytes() {
    let signature = Signature::new(KeyAlgorithm::RSASignatureRaw, vec![1, 2, 3]);
    assert_eq!(signature.algorithm(), KeyAlgorithm::RSASignatureRaw);
    assert_eq!(signature.as_bytes(), &[1, 2, 3]);
    assert_eq!(signature.to_vec(), vec![1, 2, 3]);
    assert_eq!(signature.into_vec(), vec![1, 2, 3]);
    let ciphertext = Ciphertext::new(KeyAlgorithm::RSAEncryptionPKCS1, vec![4, 5]);
    assert_eq!(ciphertext.algorithm(), KeyAlgorithm::RSAEncryptionPKCS1);
    assert_eq!(ciphertext.as_bytes(), &[4, 5]);
    assert_eq!(ciphertext.clone().into_vec(), vec![4, 5]);
}

#[test]
fn generation_parameters_have_two_levels() {
    let params = KeyPairGenerateParams::new(AttrKeyType::EcSecPrimeRandom, 256)
        .application_tag(AttrApplicationTag::from_str("tag"))
        .can_derive(true)
        .can_decrypt(false)
        .can_encrypt(true)
        .can_sign(true)
        .can_verify(false)
        .can_wrap(true)
        .can_unwrap(false)
        .key_class(AttrKeyClass::Private)
        .extractable(false)
        .permanent(true)
        .sensitive(true)
        .label(AttrLabel::new("label"))
        .synchronizable(false)
        .token_id(AttrTokenId::SecureEnclave);
    let private = attributes(vec![
        (Constant::AttrApplicationTag, Value::Data(b"tag".to_vec())),
        (Constant::AttrCanDerive, Value::Boolean(true)),
        (Constant::AttrCanDecrypt, Value::Boolean(false)),
        (Constant::AttrCanEncrypt, Value::Boolean(true)),
        (Constant::AttrCanSign, Value::Boolean(true)),
        (Constant::AttrCanVerify, Value::Boolean(false)),
        (Constant::AttrCanWrap, Value::Boolean(true)),
        (Constant::AttrCanUnwrap, Value::Boolean(false)),
        (Constant::AttrKeyClass, Value::Constant(Constant::AttrKeyClassPrivate)),
        (Constant::AttrIsExtractable, Value::Boolean(false)),
        (Constant::AttrIsPermanent, Value::Boolean(true)),
        (Constant::AttrIsSensitive, Value::Boolean(true)),
        (Constant::AttrLabel, Value::String(String::from("label"))),
        (Constant::AttrSynchronizable, Value::Boolean(false)),
    ]);
    let expected = attributes(vec![
        (Constant::AttrKeyType, Value::Constant(Constant::AttrKeyTypeECSECPrimeRandom)),
        (Constant::AttrKeySizeInBits, Value::Number(256)),
        (Constant::AttrTokenID, Value::Constant(Constant::AttrTokenIDSecureEnclave)),
        (Constant::PrivateKeyAttrs, Value::Dictionary(private)),
    ]);
    assert_eq!(params.into_dictionary(), expected);
}

#[test]
fn generation_parameters_without_attributes() {
    let params = GeneratePairParams::new(AttrKeyType::Rsa, 4096);
    let expected = attributes(vec![
        (Constant::AttrKeyType, Value::Constant(Constant::AttrKeyTypeRSA)),
        (Constant::AttrKeySizeInBits, Value::Number(4096)),
        (Constant::PrivateKeyAttrs, Value::Dictionary(attributes(vec![]))),
    ]);
    assert_eq!(KeyPair::create(params), Call::KeyCreateRandomKey { parameters: expected });
}

#[test]
fn a_failed_generation_gives_the_error_whatever_the_references() {
    let reply = status(-25311, "The key size is not allowed.");
    let error = KeyPair::finish_generate(&reply, Handle::new(1), Handle::null()).unwrap_err();
    assert_eq!(*error.kind(), ErrorKind::KeySizeNotAllowed);
    let error = KeyPair::finish_generate(&reply, Handle::null(), Handle::null()).unwrap_err();
    assert_eq!(error.description(), "The key size is not allowed.");
}

#[test]
fn a_private_key_that_was_not_created_gives_the_error_object() {
    let object = CFError {
        code: -50,
        domain: String::from("NSOSStatusErrorDomain"),
        description: String::from("Key generation failed, error -50"),
    };
    let error = KeyPair::finish_create(Handle::null(), Some(&object)).unwrap_err();
    assert_eq!(
        *error.kind(),
        ErrorKind::CFError { code: -50, domain: String::from("NSOSStatusErrorDomain") }
    );
    assert_eq!(error.description(), "Key generation failed, error -50");
}

#[test]
fn an_error_object_wins_over_the_reference_of_a_private_key() {
    let object = CFError {
        code: -25293,
        domain: String::from("NSOSStatusErrorDomain"),
        description: String::from("not authorized"),
    };
    let error = KeyPair::finish_create(Handle::new(9), Some(&object)).unwrap_err();
    assert_eq!(
        *error.kind(),
        ErrorKind::CFError { code: -25293, domain: String::from("NSOSStatusErrorDomain") }
    );
    assert_eq!(error.description(), "not authorized");
    let next = KeyPair::finish_create(Handle::new(9), None).unwrap();
    assert_eq!(next, Call::KeyCopyPublicKey { key: Handle::new(9) });
}

#[test]
fn the_size_of_a_restored_key_is_eight_bits_a_byte() {
    for (length, bits) in [(0usize, 0i64), (1, 8), (32, 256), (65, 520), (97, 776)] {
        let params = RestoreKeyParams {
            key_class: AttrKeyClass::Private,
            key_data: vec![0u8; length],
            key_type: AttrKeyType::EcSecPrimeRandom,
        };
        let expected = attributes(vec![
            (Constant::AttrKeyType, Value::Constant(Constant::AttrKeyTypeECSECPrimeRandom)),
            (Constant::AttrKeyClass, Value::Constant(Constant::AttrKeyClassPrivate)),
            (Constant::AttrKeySizeInBits, Value::Number(bits)),
        ]);
        assert_eq!(params.attributes(), expected);
        assert_eq!(params.as_bytes().len(), length);
    }
}

#[test]
fn a_key_can_be_deleted_when_its_attributes_identify_it() {
    let key = key(1);
    let private = attributes(vec![
        (Constant::AttrKeyClass, Value::Constant(Constant::AttrKeyClassPrivate)),
        (Constant::AttrApplicationLabel, Value::Data(vec![1])),
    ]);
    assert!(key.can_delete(&private));
    let private_without_label = attributes(vec![
        (Constant::AttrKeyClass, Value::Constant(Constant::AttrKeyClassPrivate)),
        (Constant::AttrApplicationTag, Value::Data(vec![1])),
    ]);
    assert!(!key.can_delete(&private_without_label));
    let public = attributes(vec![
        (Constant::AttrKeyClass, Value::Constant(Constant::AttrKeyClassPublic)),
        (Constant::AttrKeyType, Value::Constant(Constant::AttrKeyTypeRSA)),
        (Constant::AttrApplicationTag, Value::Data(vec![1])),
    ]);
    assert!(key.can_delete(&public));
    let public_without_type = attributes(vec![
        (Constant::AttrKeyClass, Value::Constant(Constant::AttrKeyClassPublic)),
        (Constant::AttrApplicationTag, Value::Data(vec![1])),
    ]);
    assert!(!key.can_delete(&public_without_type));
    let public_without_tag = attributes(vec![
        (Constant::AttrKeyClass, Value::Constant(Constant::AttrKeyClassPublic)),
        (Constant::AttrKeyType, Value::Constant(Constant::AttrKeyTypeRSA)),
        (Constant::AttrApplicationLabel, Value::Data(vec![1])),
    ]);
    assert!(!key.can_delete(&public_without_tag));
    assert!(!key.can_delete(&attributes(vec![])));
}

#[test]
fn generation_parameters_can_be_copied() {
    let params = KeyPairGenerateParams::new(AttrKeyType::Rsa, 2048)
        .label(AttrLabel::new("label"))
        .permanent(true);
    let copy = params.clone();
    assert_eq!(copy.into_dictionary(), params.into_dictionary());
}

#[test]
fn the_framework_sees_the_forced_match_limit_only() {
    let query = Query::new().match_limit(keychain_services::MatchLimit::Number(5)).permanent(true);
    match Key::find(query) {
        Call::ItemCopyMatching { query } => {
            let expected = attributes(vec![
                (Constant::AttrIsPermanent, Value::Boolean(true)),
                (Constant::Class, Value::Constant(Constant::ClassKey)),
                (Constant::MatchLimit, Value::Constant(Constant::MatchLimitOne)),
                (Constant::ReturnRef, Value::Boolean(true)),
            ]);
            assert_eq!(query.effective(), expected);
        }
        other => panic!("unexpected call: {:?}", other),
    }
}

#[test]
fn signatures_and_ciphertexts_lend_and_give_their_bytes() {
    let signature = Signature::new(KeyAlgorithm::ECDSASignatureRFC4754, vec![9, 8, 7]);
    let lent: &[u8] = signature.as_ref();
    assert_eq!(lent, &[9, 8, 7]);
    assert_eq!(Vec::<u8>::from(signature), vec![9, 8, 7]);
    let ciphertext = Ciphertext::new(KeyAlgorithm::RSAEncryptionRaw, vec![1, 2]);
    let lent: &[u8] = ciphertext.as_ref();
    assert_eq!(lent, &[1, 2]);
    let given: Vec<u8> = ciphertext.into();
    assert_eq!(given, vec![1, 2]);
    let label = AttrApplicationLabel::new(&[5, 6]);
    let lent: &[u8] = label.as_ref();
    assert_eq!(lent, &[5, 6]);
    let tag = AttrApplicationTag::new(b"tag");
    let lent: &[u8] = tag.as_ref();
    assert_eq!(lent, b"tag");
}
