use keychain_services::{
    AccessControl, AttrAccessible, AttrApplicationLabel, AttrApplicationTag, AttrKeyClass,
    AttrKeyType, AttrLabel, Call, Constant, DictionaryBuilder, GenericPassword, Handle, ItemAttribute,
    ItemContent, Key, KeyPair, KeyPairGenerateParams, Keychain, Query, StatusReply, Value,
};

const TEST_PASSWORD: &str = "test password. do not really use";

const TEST_KEYCHAIN: &[u8] = b"/tmp/keychain-services/test-keychain";

fn success() -> StatusReply {
    StatusReply { status: 0, message: String::from("No error.") }
}

fn temp_keychain() -> Keychain {
    let call = Keychain::create(TEST_KEYCHAIN, Some(TEST_PASSWORD));
    assert_eq!(
        call,
        Call::KeychainCreate {
            path: TEST_KEYCHAIN.to_vec(),
            password: Some(TEST_PASSWORD.as_bytes().to_vec()),
            password_length: 32,
            prompt_user: false,
        }
    );
    Keychain::finish_create(&success(), Handle::new(0x5000)).unwrap()
}

fn generate_keypair(tag: &str, label: &str) -> KeyPair {
    let acl = AccessControl::finish_create_with_flags(Handle::new(0x6000), None).unwrap();
    assert_eq!(
        AccessControl::create_with_flags(AttrAccessible::WhenUnlocked, Default::default()),
        Call::AccessControlCreateWithFlags {
            protection: Constant::AttrAccessibleWhenUnlocked,
            flags: 0,
        }
    );

    let generate_params = KeyPairGenerateParams::new(AttrKeyType::EcSecPrimeRandom, 256)
        .access_control(&acl)
        .application_tag(AttrApplicationTag::from_str(tag))
        .label(AttrLabel::new(label))
        .permanent(true);

    let mut private = DictionaryBuilder::new();
    private.add(Constant::AttrAccessControl, Value::AccessControl(Handle::new(0x6000)));
    private.add(Constant::AttrApplicationTag, Value::Data(tag.as_bytes().to_vec()));
    private.add(Constant::AttrLabel, Value::String(String::from(label)));
    private.add(Constant::AttrIsPermanent, Value::Boolean(true));
    let mut top = DictionaryBuilder::new();
    top.add(
        Constant::AttrKeyType,
        Value::Constant(Constant::AttrKeyTypeECSECPrimeRandom),
    );
    top.add(Constant::AttrKeySizeInBits, Value::Number(256));
    top.add(Constant::PrivateKeyAttrs, Value::Dictionary(private.into_dictionary()));
    assert_eq!(
        KeyPair::generate(generate_params),
        Call::KeyGeneratePair { parameters: top.into_dictionary() }
    );

    KeyPair::finish_generate(&success(), Handle::new(0x6100), Handle::new(0x6200)).unwrap()
}

#[test]
fn key_query() {
    let keypair = generate_keypair(
        "rs.keychain-services.test.integration.query",
        "keychain-services.rs integration test query key",
    );

    let fingerprint: Vec<u8> = (0u8..20).collect();
    let mut reported = DictionaryBuilder::new();
    reported.add(Constant::AttrApplicationLabel, Value::Data(fingerprint.clone()));
    let reported = reported.into_dictionary();
    assert_eq!(
        keypair.public_key.attributes(),
        Call::KeyCopyAttributes { key: Handle::new(0x6100) }
    );

    let private_key_query = Query::new()
        .key_class(AttrKeyClass::Private)
        .key_type(AttrKeyType::EcSecPrimeRandom)
        .application_label(keypair.public_key.application_label(&reported).unwrap());

    let mut expected = DictionaryBuilder::new();
    expected.add(Constant::AttrKeyClass, Value::Constant(Constant::AttrKeyClassPrivate));
    expected.add(
        Constant::AttrKeyType,
        Value::Constant(Constant::AttrKeyTypeECSECPrimeRandom),
    );
    expected.add(Constant::AttrApplicationLabel, Value::Data(fingerprint.clone()));
    expected.add(Constant::Class, Value::Constant(Constant::ClassKey));
    expected.add(Constant::MatchLimit, Value::Constant(Constant::MatchLimitOne));
    expected.add(Constant::ReturnRef, Value::Boolean(true));
    assert_eq!(
        Key::find(private_key_query),
        Call::ItemCopyMatching { query: expected.into_dictionary() }
    );

    let private_key = Key::finish_find(&success(), Handle::new(0x6200)).unwrap();
    assert_eq!(private_key, keypair.private_key);

    assert_eq!(
        keypair.private_key.application_label(&reported),
        private_key.application_label(&reported)
    );
    assert_eq!(
        private_key.application_label(&reported),
        Some(AttrApplicationLabel::new(&fingerprint))
    );
}

#[test]
fn store_and_retrieve_passwords() {
    let keychain = temp_keychain();
    let service = "example.com";
    let account = "example";

    let mut expected = DictionaryBuilder::new();
    expected.add(Constant::Class, Value::Constant(Constant::ClassGenericPassword));
    expected.add(Constant::AttrService, Value::String(String::from("example.com")));
    expected.add(Constant::AttrAccount, Value::String(String::from("example")));
    expected.add(Constant::ValueData, Value::String(String::from(TEST_PASSWORD)));
    expected.add(Constant::UseKeychain, Value::Keychain(Handle::new(0x5000)));
    expected.add(Constant::ReturnRef, Value::Boolean(true));
    assert_eq!(
        GenericPassword::create(&keychain, service, account, TEST_PASSWORD),
        Call::ItemAdd { attributes: expected.into_dictionary() }
    );
    let keychain_item = GenericPassword::finish(&success(), Handle::new(0x5100)).unwrap();

    assert_eq!(
        keychain_item.item().attributes(),
        Call::KeychainItemCopyContent {
            item: Handle::new(0x5100),
            content: ItemContent::Attributes,
        }
    );
    let attributes = vec![
        ItemAttribute { tag: Constant::AttrLabel, data: Some(b"example.com".to_vec()) },
        ItemAttribute { tag: Constant::AttrAccount, data: Some(b"example".to_vec()) },
        ItemAttribute { tag: Constant::AttrService, data: Some(b"example.com".to_vec()) },
    ];
    assert_eq!(
        keychain_item.item().data(),
        Call::KeychainItemCopyContent { item: Handle::new(0x5100), content: ItemContent::Data }
    );

    assert_eq!(keychain_item.service(&success(), &attributes).unwrap(), service);
    assert_eq!(keychain_item.account(&success(), &attributes).unwrap(), account);
    assert_eq!(
        keychain_item
            .password(&success(), Some(TEST_PASSWORD.as_bytes().to_vec()))
            .unwrap()
            .as_str(),
        TEST_PASSWORD
    );
}
