use keychain_services::{
    AttrApplicationLabel, AttrApplicationTag, AttrKeyClass, AttrKeyType, AttrLabel, AttrTokenId,
    Constant, DictionaryBuilder, MatchLimit, Query, SecItemQueryParams, SecMatchLimit, Value,
};

#[test]
fn a_query_without_filters_gives_the_empty_dictionary() {
    let dictionary = SecItemQueryParams::new().into_dictionary();
    assert!(dictionary.is_empty());
    assert_eq!(dictionary, DictionaryBuilder::new().into_dictionary());
    assert_eq!(SecItemQueryParams::default().len(), 0);
    assert_eq!(Query::new().into_builder(), DictionaryBuilder::new());
}

#[test]
fn every_filter_adds_one_pair() {
    let query = SecItemQueryParams::new();
    assert_eq!(query.len(), 0);
    let query = query.application_label(AttrApplicationLabel::new(&[1, 2]));
    assert_eq!(query.len(), 1);
    let query = query.application_tag(AttrApplicationTag::from_str("tag"));
    assert_eq!(query.len(), 2);
    let query = query.key_class(AttrKeyClass::Private);
    assert_eq!(query.len(), 3);
    let query = query.key_type(AttrKeyType::EcSecPrimeRandom);
    assert_eq!(query.len(), 4);
    let query = query.label(AttrLabel::new("label"));
    assert_eq!(query.len(), 5);
    let query = query.permanent(true);
    assert_eq!(query.len(), 6);
    let query = query.synchronizable(false);
    assert_eq!(query.len(), 7);
    let query = query.token_id(AttrTokenId::SecureEnclave);
    assert_eq!(query.len(), 8);
    let query = query.use_operation_prompt("Sign in");
    assert_eq!(query.len(), 9);
    let query = query.match_limit(SecMatchLimit::Number(3));
    assert_eq!(query.len(), 10);

    let dictionary = query.into_dictionary();
    let expected = [
        (Constant::AttrApplicationLabel, Value::Data(vec![1, 2])),
        (Constant::AttrApplicationTag, Value::Data(vec![b't', b'a', b'g'])),
        (Constant::AttrKeyClass, Value::Constant(Constant::AttrKeyClassPrivate)),
        (Constant::AttrKeyType, Value::Constant(Constant::AttrKeyTypeECSECPrimeRandom)),
        (Constant::AttrLabel, Value::String(String::from("label"))),
        (Constant::AttrIsPermanent, Value::Boolean(true)),
        (Constant::AttrSynchronizable, Value::Boolean(false)),
        (Constant::AttrTokenID, Value::Constant(Constant::AttrTokenIDSecureEnclave)),
        (Constant::UseOperationPrompt, Value::String(String::from("Sign in"))),
        (Constant::MatchLimit, Value::Number(3)),
    ];
    assert_eq!(dictionary.len(), expected.len());
    for (i, (key, value)) in expected.iter().enumerate() {
        assert_eq!(dictionary.key(i), *key);
        assert_eq!(dictionary.value(i), value);
    }
}

#[test]
fn a_filter_set_twice_is_there_twice_and_the_later_counts() {
    let dictionary = SecItemQueryParams::new()
        .permanent(true)
        .permanent(false)
        .into_dictionary();
    assert_eq!(dictionary.len(), 2);
    assert_eq!(dictionary.find(Constant::AttrIsPermanent), Some(&Value::Boolean(false)));
}

#[test]
fn match_limits_and_their_values() {
    assert_eq!(SecMatchLimit::One.as_CFType(), Value::Constant(Constant::MatchLimitOne));
    assert_eq!(SecMatchLimit::All.as_CFType(), Value::Constant(Constant::MatchLimitAll));
    assert_eq!(SecMatchLimit::Number(0).as_CFType(), Value::Number(0));
    assert_eq!(MatchLimit::Number(17).as_CFType(), Value::Number(17));
    assert_eq!(
        SecMatchLimit::Number(i64::MAX as usize).as_CFType(),
        Value::Number(i64::MAX)
    );
}
