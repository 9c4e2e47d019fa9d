use keychain_services::{
    AttrKind, AttrProtocol, Call, Class, Constant, Dictionary, DictionaryBuilder, ErrorKind,
    GenericPassword, Handle, InternetPassword, Item, ItemAttribute, ItemContent, Keychain,
    PasswordData, StatusReply, Value,
};

fn success() -> StatusReply {
    StatusReply { status: 0, message: String::from("No error.") }
}

fn status(code: i32, message: &str) -> StatusReply {
    StatusReply { status: code, message: String::from(message) }
}

fn keychain() -> Keychain {
    Keychain::finish_find_default(&success(), Handle::new(0x100)).unwrap()
}

fn dictionary(pairs: Vec<(Constant, Value)>) -> Dictionary {
    let mut builder = DictionaryBuilder::new();
    for (key, value) in pairs {
        builder.add(key, value);
    }
    builder.into_dictionary()
}

fn item() -> Item {
    Keychain::finish_item(&success(), Handle::new(0x200)).unwrap()
}

#[test]
fn the_default_keychain() {
    assert_eq!(Keychain::find_default(), Call::KeychainCopyDefault);
    let found = Keychain::finish_find_default(&success(), Handle::new(0x100)).unwrap();
    assert_eq!(found.handle(), Handle::new(0x100));
    let reply = status(-25307, "A default keychain could not be found.");
    let error = Keychain::finish_find_default(&reply, Handle::null()).unwrap_err();
    assert_eq!(*error.kind(), ErrorKind::NoDefaultKeychain);
}

#[test]
fn a_keychain_without_a_password_asks_the_user() {
    assert_eq!(
        Keychain::create(b"/tmp/k", None),
        Call::KeychainCreate {
            path: b"/tmp/k".to_vec(),
            password: None,
            password_length: 0,
            prompt_user: true,
        }
    );
    assert_eq!(
        Keychain::create(b"/tmp/k", Some("p\u{e4}ss")),
        Call::KeychainCreate {
            path: b"/tmp/k".to_vec(),
            password: Some(vec![b'p', 0xc3, 0xa4, b's', b's']),
            password_length: 5,
            prompt_user: false,
        }
    );
    let reply = status(-25296, "A keychain with the same name already exists.");
    let error = Keychain::finish_create(&reply, Handle::new(1)).unwrap_err();
    assert_eq!(*error.kind(), ErrorKind::DuplicateKeychain);
}

#[test]
fn deleting_a_keychain() {
    assert_eq!(keychain().delete(), Call::KeychainDelete { keychain: Handle::new(0x100) });
    assert!(Keychain::finish_delete(&success()).is_ok());
    let error = Keychain::finish_delete(&status(-25294, "no such keychain")).unwrap_err();
    assert_eq!(*error.kind(), ErrorKind::NoSuchKeychain);
}

#[test]
fn looking_for_a_generic_password() {
    let expected = dictionary(vec![
        (Constant::Class, Value::Constant(Constant::ClassGenericPassword)),
        (Constant::AttrService, Value::String(String::from("example.com"))),
        (Constant::AttrAccount, Value::String(String::from("example"))),
        (Constant::MatchLimit, Value::Constant(Constant::MatchLimitOne)),
        (Constant::ReturnRef, Value::Boolean(true)),
    ]);
    assert_eq!(
        GenericPassword::find(&keychain(), "example.com", "example"),
        Call::ItemCopyMatching { query: expected }
    );
    let reply = status(-25300, "not found");
    assert_eq!(
        *GenericPassword::finish(&reply, Handle::null()).unwrap_err().kind(),
        ErrorKind::ItemNotFound
    );
}

#[test]
fn storing_an_internet_password() {
    let expected = dictionary(vec![
        (Constant::Class, Value::Constant(Constant::ClassInternetPassword)),
        (Constant::AttrServer, Value::String(String::from("example.com"))),
        (Constant::AttrAccount, Value::String(String::from("example"))),
        (Constant::ValueData, Value::String(String::from("secret"))),
        (Constant::UseKeychain, Value::Keychain(Handle::new(0x100))),
        (Constant::ReturnRef, Value::Boolean(true)),
    ]);
    assert_eq!(
        InternetPassword::create(&keychain(), "example.com", "example", "secret"),
        Call::ItemAdd { attributes: expected }
    );
    let reply = status(-25299, "The specified item already exists in the keychain.");
    assert_eq!(
        *InternetPassword::finish(&reply, Handle::new(5)).unwrap_err().kind(),
        ErrorKind::DuplicateItem
    );
}

#[test]
fn looking_for_an_internet_password_with_and_without_a_protocol() {
    let without = dictionary(vec![
        (Constant::Class, Value::Constant(Constant::ClassInternetPassword)),
        (Constant::AttrServer, Value::String(String::from("example.com"))),
        (Constant::AttrAccount, Value::String(String::from("example"))),
        (Constant::MatchLimit, Value::Constant(Constant::MatchLimitOne)),
        (Constant::ReturnRef, Value::Boolean(true)),
    ]);
    assert_eq!(
        InternetPassword::find(&keychain(), "example.com", "example", None),
        Call::ItemCopyMatching { query: without }
    );
    let with = dictionary(vec![
        (Constant::Class, Value::Constant(Constant::ClassInternetPassword)),
        (Constant::AttrServer, Value::String(String::from("example.com"))),
        (Constant::AttrAccount, Value::String(String::from("example"))),
        (Constant::AttrProtocol, Value::Constant(Constant::AttrProtocolHTTPS)),
        (Constant::MatchLimit, Value::Constant(Constant::MatchLimitOne)),
        (Constant::ReturnRef, Value::Boolean(true)),
    ]);
    assert_eq!(
        InternetPassword::find(&keychain(), "example.com", "example", Some(AttrProtocol::HTTPS)),
        Call::ItemCopyMatching { query: with }
    );
}

#[test]
fn an_internet_password_is_read_back() {
    let password = InternetPassword::finish(&success(), Handle::new(0x300)).unwrap();
    assert_eq!(password.item().handle(), Handle::new(0x300));
    let attributes = vec![
        ItemAttribute { tag: Constant::AttrServer, data: Some(b"example.com".to_vec()) },
        ItemAttribute { tag: Constant::AttrAccount, data: Some(b"first".to_vec()) },
        ItemAttribute { tag: Constant::AttrAccount, data: Some(b"second".to_vec()) },
    ];
    assert_eq!(password.server(&success(), &attributes).unwrap(), "example.com");
    assert_eq!(password.account(&success(), &attributes).unwrap(), "first");
    let secret = password.password(&success(), Some(b"secret".to_vec())).unwrap();
    assert_eq!(secret.as_bytes(), b"secret");
}

#[test]
fn an_attribute_that_is_missing_is_an_error() {
    let attributes = vec![
        ItemAttribute { tag: Constant::AttrServer, data: Some(b"example.com".to_vec()) },
        ItemAttribute { tag: Constant::MatchLimit, data: None },
    ];
    let error = item().attribute(AttrKind::Account, &success(), &attributes).unwrap_err();
    assert_eq!(*error.kind(), ErrorKind::NoSuchAttr);
    assert_eq!(error.description(), "missing attribute Account");
    let error = item().attribute(AttrKind::Service, &success(), &Vec::new()).unwrap_err();
    assert_eq!(error.description(), "missing attribute Service");
}

#[test]
fn attributes_of_a_failed_call_are_the_error() {
    let attributes = vec![ItemAttribute {
        tag: Constant::AttrAccount,
        data: Some(b"example".to_vec()),
    }];
    let reply = status(-25304, "The specified item is no longer valid.");
    let error = item().attribute(AttrKind::Account, &reply, &attributes).unwrap_err();
    assert_eq!(*error.kind(), ErrorKind::InvalidItemRef);
}

#[test]
fn the_data_of_an_item() {
    assert_eq!(
        item().data(),
        Call::KeychainItemCopyContent { item: Handle::new(0x200), content: ItemContent::Data }
    );
    assert_eq!(Item::finish_data(&success(), Some(vec![1, 2, 3])).unwrap(), vec![1, 2, 3]);
    let error = Item::finish_data(&success(), None).unwrap_err();
    assert_eq!(*error.kind(), ErrorKind::MissingEntitlement);
    assert_eq!(error.description(), "SecKeychainItemCopyContent refused to return data");
    let error = Item::finish_data(&status(-25293, "denied"), Some(vec![1])).unwrap_err();
    assert_eq!(*error.kind(), ErrorKind::AuthFailed);
}

#[test]
fn the_class_of_an_item() {
    assert_eq!(
        item().class(),
        Call::KeychainItemCopyContent { item: Handle::new(0x200), content: ItemContent::Class }
    );
    assert_eq!(
        Item::finish_class(&success(), Constant::ClassGenericPassword),
        Class::GenericPassword
    );
    assert_eq!(Item::finish_class(&success(), Constant::ClassKey), Class::Key);
}

#[test]
fn password_data_as_text() {
    let data = PasswordData::new(b"test password. do not really use".to_vec());
    assert_eq!(data.as_bytes(), b"test password. do not really use");
    assert_eq!(data.as_str(), "test password. do not really use");
    assert_eq!(data.try_as_str().unwrap(), "test password. do not really use");
    let data = PasswordData::new(vec![0xff, 0xfe]);
    assert!(data.try_as_str().is_err());
    assert_eq!(data.as_bytes(), &[0xff, 0xfe]);
}

#[test]
fn password_data_is_wiped() {
    let mut data = PasswordData::new(b"secret".to_vec());
    let copy = data.clone();
    data.zeroize();
    assert_eq!(data.as_bytes(), b"");
    assert_eq!(data.as_bytes().len(), 0);
    assert_eq!(copy.as_bytes(), b"secret");
}

#[test]
fn an_attribute_is_readable_when_it_is_text() {
    let text = vec![ItemAttribute { tag: Constant::AttrAccount, data: Some(b"example".to_vec()) }];
    assert!(Item::can_read_attribute(AttrKind::Account, &success(), &text));
    assert!(Item::can_read_attribute(AttrKind::Service, &success(), &text));
    let bytes = vec![ItemAttribute { tag: Constant::AttrAccount, data: Some(vec![0xff]) }];
    assert!(!Item::can_read_attribute(AttrKind::Account, &success(), &bytes));
    assert!(Item::can_read_attribute(AttrKind::Account, &status(-25304, "gone"), &bytes));
    let empty = vec![
        ItemAttribute { tag: Constant::AttrAccount, data: None },
        ItemAttribute { tag: Constant::AttrAccount, data: Some(b"later".to_vec()) },
    ];
    assert!(!Item::can_read_attribute(AttrKind::Account, &success(), &empty));
}

#[test]
fn a_password_without_data_is_a_missing_entitlement() {
    let generic = GenericPassword::finish(&success(), Handle::new(0x400)).unwrap();
    match generic.password(&success(), None) {
        Ok(_) => panic!("a password came out of nothing"),
        Err(error) => {
            assert_eq!(*error.kind(), ErrorKind::MissingEntitlement);
            assert_eq!(
                error.description(),
                "SecKeychainItemCopyContent refused to return data"
            );
        }
    }
    let internet = InternetPassword::finish(&success(), Handle::new(0x401)).unwrap();
    match internet.password(&success(), None) {
        Ok(_) => panic!("a password came out of nothing"),
        Err(error) => {
            assert_eq!(*error.kind(), ErrorKind::MissingEntitlement);
            assert_eq!(
                error.description(),
                "SecKeychainItemCopyContent refused to return data"
            );
        }
    }
    match internet.password(&status(-25293, "denied"), Some(vec![1])) {
        Ok(_) => panic!("a password came out of a failed call"),
        Err(error) => assert_eq!(*error.kind(), ErrorKind::AuthFailed),
    }
    assert_eq!(
        generic.password(&success(), Some(b"pw".to_vec())).ok().unwrap().as_bytes(),
        b"pw"
    );
}

#[test]
fn password_data_lends_its_bytes() {
    let data = PasswordData::new(b"secret".to_vec());
    let lent: &[u8] = data.as_ref();
    assert_eq!(lent, b"secret");
}
