use keychain_services::{
    AttrApplicationLabel, AttrApplicationTag, AttrKeyClass, AttrKeyType, AttrKind, AttrLabel,
    AttrProtocol, AttrTokenId, Class, Constant, DictionaryBuilder, Handle, TAttr, Value,
};

#[test]
fn a_new_builder_gives_the_empty_dictionary() {
    let dictionary = DictionaryBuilder::new().into_dictionary();
    assert_eq!(dictionary.len(), 0);
    assert!(dictionary.is_empty());
    assert_eq!(dictionary.find(Constant::Class), None);
    assert!(!dictionary.contains_key(Constant::Class));
    assert_eq!(DictionaryBuilder::default(), DictionaryBuilder::new());
}

#[test]
fn pairs_keep_the_order_of_their_addition() {
    let mut builder = DictionaryBuilder::new();
    builder.add(Constant::AttrLabel, Value::String(String::from("first")));
    builder.add_boolean(Constant::AttrIsPermanent, true);
    builder.add_number(Constant::AttrKeySizeInBits, 256);
    builder.add_string(Constant::AttrAccount, "example");
    builder.add_class(Class::Key);
    assert_eq!(builder.len(), 5);
    let dictionary = builder.into_dictionary();
    assert_eq!(dictionary.len(), 5);
    assert_eq!(dictionary.key(0), Constant::AttrLabel);
    assert_eq!(*dictionary.value(0), Value::String(String::from("first")));
    assert_eq!(dictionary.key(1), Constant::AttrIsPermanent);
    assert_eq!(*dictionary.value(1), Value::Boolean(true));
    assert_eq!(dictionary.key(2), Constant::AttrKeySizeInBits);
    assert_eq!(*dictionary.value(2), Value::Number(256));
    assert_eq!(dictionary.key(3), Constant::AttrAccount);
    assert_eq!(*dictionary.value(3), Value::String(String::from("example")));
    assert_eq!(dictionary.key(4), Constant::Class);
    assert_eq!(*dictionary.value(4), Value::Constant(Constant::ClassKey));
}

#[test]
fn of_two_pairs_with_one_key_the_later_is_found() {
    let mut builder = DictionaryBuilder::new();
    builder.add_boolean(Constant::AttrIsPermanent, true);
    builder.add_string(Constant::AttrLabel, "label");
    builder.add_boolean(Constant::AttrIsPermanent, false);
    let dictionary = builder.into_dictionary();
    assert_eq!(dictionary.len(), 3);
    assert_eq!(dictionary.find(Constant::AttrIsPermanent), Some(&Value::Boolean(false)));
    assert_eq!(
        dictionary.find(Constant::AttrLabel),
        Some(&Value::String(String::from("label")))
    );
    assert_eq!(dictionary.find(Constant::AttrAccount), None);
    assert!(dictionary.contains_key(Constant::AttrIsPermanent));
    assert!(!dictionary.contains_key(Constant::AttrAccount));
    assert_eq!(*dictionary.value(0), Value::Boolean(true));
}

#[test]
fn a_typed_attribute_goes_under_the_key_of_its_kind() {
    let mut builder = DictionaryBuilder::new();
    builder.add_attr(&AttrKeyType::Rsa);
    builder.add_attr(&AttrKeyClass::Private);
    builder.add_attr(&AttrApplicationTag::new(b"tag"));
    builder.add_attr(&AttrApplicationLabel::new(&[1, 2, 3]));
    builder.add_attr(&AttrLabel::new("a label"));
    builder.add_attr(&AttrProtocol::HTTPS);
    builder.add_attr(&AttrTokenId::SecureEnclave);
    let dictionary = builder.into_dictionary();
    let expected = [
        (Constant::AttrKeyType, Value::Constant(Constant::AttrKeyTypeRSA)),
        (Constant::AttrKeyClass, Value::Constant(Constant::AttrKeyClassPrivate)),
        (Constant::AttrApplicationTag, Value::Data(vec![b't', b'a', b'g'])),
        (Constant::AttrApplicationLabel, Value::Data(vec![1, 2, 3])),
        (Constant::AttrLabel, Value::String(String::from("a label"))),
        (Constant::AttrProtocol, Value::Constant(Constant::AttrProtocolHTTPS)),
        (Constant::AttrTokenID, Value::Constant(Constant::AttrTokenIDSecureEnclave)),
    ];
    assert_eq!(dictionary.len(), expected.len());
    for (i, (key, value)) in expected.iter().enumerate() {
        assert_eq!(dictionary.key(i), *key);
        assert_eq!(dictionary.value(i), value);
    }
}

#[test]
fn attributes_know_their_kind() {
    assert_eq!(AttrKeyType::Aes.kind(), AttrKind::KeyType);
    assert_eq!(AttrKeyClass::Public.kind(), AttrKind::KeyClass);
    assert_eq!(AttrApplicationTag::new(b"t").kind(), AttrKind::ApplicationTag);
    assert_eq!(AttrApplicationLabel::new(b"l").kind(), AttrKind::ApplicationLabel);
    assert_eq!(AttrLabel::new("l").kind(), AttrKind::Label);
    assert_eq!(AttrProtocol::FTP.kind(), AttrKind::Protocol);
    assert_eq!(AttrTokenId::SecureEnclave.kind(), AttrKind::TokenId);
}

#[test]
fn a_dictionary_can_hold_a_dictionary() {
    let mut inner = DictionaryBuilder::new();
    inner.add_boolean(Constant::AttrIsPermanent, true);
    let mut outer = DictionaryBuilder::new();
    outer.add(Constant::PrivateKeyAttrs, Value::Dictionary(inner.into_dictionary()));
    outer.add(Constant::UseKeychain, Value::Keychain(Handle::new(7)));
    let dictionary = outer.into_dictionary();
    match dictionary.find(Constant::PrivateKeyAttrs) {
        Some(Value::Dictionary(nested)) => {
            assert_eq!(nested.len(), 1);
            assert_eq!(nested.find(Constant::AttrIsPermanent), Some(&Value::Boolean(true)));
        }
        other => panic!("unexpected value: {:?}", other),
    }
    assert_eq!(dictionary.find(Constant::UseKeychain), Some(&Value::Keychain(Handle::new(7))));
}

#[test]
fn labels_and_tags_keep_their_bytes() {
    let label = AttrApplicationLabel::new(&[0xde, 0xad, 0xbe, 0xef]);
    assert_eq!(label.as_bytes(), &[0xde, 0xad, 0xbe, 0xef]);
    let tag = AttrApplicationTag::from_str("rs.keychain-services.test");
    assert_eq!(tag.as_bytes(), b"rs.keychain-services.test");
    assert_eq!(tag.as_str().unwrap(), "rs.keychain-services.test");
    assert_eq!(tag.to_string(), "rs.keychain-services.test");
    assert_eq!(tag, AttrApplicationTag::new(b"rs.keychain-services.test"));
    let label = AttrLabel::new("a key");
    assert_eq!(label.as_str(), "a key");
    assert_eq!(label.to_string(), "a key");
}

#[test]
fn a_tag_that_is_not_text_is_shown_with_replacement_characters() {
    let tag = AttrApplicationTag::new(&[b'a', 0xff, b'b']);
    assert!(tag.as_str().is_err());
    assert_eq!(tag.to_string(), "a\u{fffd}b");
    let tag = AttrApplicationTag::new(&[0xc3, 0xa9]);
    assert_eq!(tag.as_str().unwrap(), "\u{e9}");
    assert_eq!(tag.to_string(), "\u{e9}");
}

#[test]
fn null_is_the_reference_zero() {
    assert!(Handle::null().is_null());
    assert!(Handle::new(0).is_null());
    assert!(!Handle::new(1).is_null());
    assert_eq!(Handle::new(42).raw(), 42);
}

#[test]
fn a_copy_of_a_dictionary_holds_the_same_pairs() {
    let mut inner = DictionaryBuilder::new();
    inner.add_string(Constant::AttrLabel, "inner");
    inner.add(Constant::AttrApplicationTag, Value::Data(vec![1, 2, 3]));
    let mut outer = DictionaryBuilder::new();
    outer.add_number(Constant::AttrKeySizeInBits, 256);
    outer.add(Constant::PrivateKeyAttrs, Value::Dictionary(inner.into_dictionary()));
    outer.add(Constant::AttrAccessControl, Value::AccessControl(Handle::new(3)));
    let builder_copy = outer.clone();
    assert_eq!(builder_copy, outer);
    let dictionary = outer.into_dictionary();
    let copy = dictionary.clone();
    assert_eq!(copy, dictionary);
    assert_eq!(copy.duplicate(), dictionary);
    assert_eq!(copy.len(), 3);
    assert_eq!(copy.value(1).duplicate(), *dictionary.value(1));
    assert_eq!(copy.value(0).clone(), Value::Number(256));
}

fn dictionary_of(pairs: Vec<(Constant, Value)>) -> keychain_services::Dictionary {
    let mut builder = DictionaryBuilder::new();
    for (key, value) in pairs {
        builder.add(key, value);
    }
    builder.into_dictionary()
}

#[test]
fn without_repeated_keys_all_pairs_count() {
    let dictionary = dictionary_of(vec![
        (Constant::AttrLabel, Value::String(String::from("label"))),
        (Constant::AttrIsPermanent, Value::Boolean(true)),
        (Constant::AttrKeySizeInBits, Value::Number(256)),
    ]);
    assert_eq!(dictionary.effective(), dictionary);
    assert_eq!(dictionary_of(vec![]).effective(), dictionary_of(vec![]));
}

#[test]
fn of_pairs_with_one_key_only_the_last_counts() {
    let dictionary = dictionary_of(vec![
        (Constant::MatchLimit, Value::Constant(Constant::MatchLimitAll)),
        (Constant::AttrLabel, Value::String(String::from("first"))),
        (Constant::Class, Value::Constant(Constant::ClassKey)),
        (Constant::AttrLabel, Value::String(String::from("second"))),
        (Constant::MatchLimit, Value::Constant(Constant::MatchLimitOne)),
        (Constant::AttrLabel, Value::String(String::from("third"))),
    ]);
    let expected = dictionary_of(vec![
        (Constant::Class, Value::Constant(Constant::ClassKey)),
        (Constant::MatchLimit, Value::Constant(Constant::MatchLimitOne)),
        (Constant::AttrLabel, Value::String(String::from("third"))),
    ]);
    let effective = dictionary.effective();
    assert_eq!(effective, expected);
    for key in [Constant::MatchLimit, Constant::AttrLabel, Constant::Class, Constant::ReturnRef] {
        assert_eq!(effective.find(key), dictionary.find(key));
    }
    assert_eq!(effective.effective(), effective);
}

#[test]
fn a_key_repeated_throughout_leaves_one_pair() {
    let dictionary = dictionary_of(vec![
        (Constant::AttrIsPermanent, Value::Boolean(true)),
        (Constant::AttrIsPermanent, Value::Boolean(false)),
        (Constant::AttrIsPermanent, Value::Boolean(true)),
    ]);
    assert_eq!(
        dictionary.effective(),
        dictionary_of(vec![(Constant::AttrIsPermanent, Value::Boolean(true))])
    );
}
