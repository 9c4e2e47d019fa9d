//! Queries: the filters by which keychain items are looked for.

use crate::attr::{
    AttrApplicationLabel, AttrApplicationTag, AttrKeyClass, AttrKeyType, AttrKind, AttrLabel,
    AttrTokenId, TAttr,
};
use crate::constant::Constant;
use crate::dictionary::{
    lemma_well_typed_push_attr, lemma_well_typed_push_other, well_typed, Dictionary,
    DictionaryBuilder, DictionaryView, Value, ValueView,
};
use vstd::prelude::*;

verus! {

/// How many items a search may give.
#[derive(Clone, Copy, Debug, PartialEq, Eq, Hash, Structural)]
pub enum SecMatchLimit {
    /// One item (`kSecMatchLimitOne`).
    One,
    /// At most the given number of items.
    Number(usize),
    /// Every item that matches (`kSecMatchLimitAll`).
    All,
}

/// The newer name of [`SecMatchLimit`].
pub type MatchLimit = SecMatchLimit;

impl SecMatchLimit {
    /// The value that stands for this limit under the key of the match limit.
    pub open spec fn value(self) -> ValueView {
        match self {
            SecMatchLimit::One => ValueView::Constant(Constant::MatchLimitOne),
            SecMatchLimit::Number(n) => ValueView::Number(n as i64),
            SecMatchLimit::All => ValueView::Constant(Constant::MatchLimitAll),
        }
    }

    /// Gives the value to put under the key of the match limit. A number has to fit
    /// the framework's signed 64-bit numbers.
    #[allow(non_snake_case)]
    pub fn as_CFType(self) -> (r: Value)
        requires
            self matches SecMatchLimit::Number(n) ==> n <= i64::MAX,
        ensures
            r@ == self.value(),
    {
        match self {
            SecMatchLimit::One => Value::Constant(Constant::MatchLimitOne),
            SecMatchLimit::Number(n) => Value::Number(n as i64),
            SecMatchLimit::All => Value::Constant(Constant::MatchLimitAll),
        }
    }
}

/// A query for keychain items: a list of filters, each added by one call. A query
/// made by [`SecItemQueryParams::new`] has no filter; every call of a filter method
/// adds exactly one pair, behind those already there.
#[derive(Debug)]
pub struct SecItemQueryParams {
    attrs: DictionaryBuilder,
}

/// The newer name of [`SecItemQueryParams`].
pub type Query = SecItemQueryParams;

impl View for SecItemQueryParams {
    type V = DictionaryView;

    closed spec fn view(&self) -> DictionaryView {
        self.attrs@
    }
}

impl SecItemQueryParams {
    #[verifier::type_invariant]
    closed spec fn attrs_well_typed(self) -> bool {
        well_typed(self.attrs@)
    }

    /// A query without filters.
    pub fn new() -> (r: SecItemQueryParams)
        ensures
            r@ == DictionaryView::empty(),
    {
        SecItemQueryParams { attrs: DictionaryBuilder::new() }
    }

    fn with_attr<A: TAttr>(self, attr: &A) -> (r: SecItemQueryParams)
        ensures
            r@ == self@.push((attr.spec_kind().constant(), attr.spec_value())),
    {
        proof {
            use_type_invariant(&self);
        }
        let mut attrs = self.attrs;
        attrs.add_attr(attr);
        proof {
            lemma_well_typed_push_attr(self.attrs@, attr.spec_kind(), attr.spec_value());
        }
        SecItemQueryParams { attrs }
    }

    fn with_boolean(self, kind: AttrKind, value: bool) -> (r: SecItemQueryParams)
        requires
            kind.accepts(ValueView::Boolean(value)),
        ensures
            r@ == self@.push((kind.constant(), ValueView::Boolean(value))),
    {
        proof {
            use_type_invariant(&self);
        }
        let mut attrs = self.attrs;
        attrs.add_boolean(Constant::from(kind), value);
        proof {
            lemma_well_typed_push_attr(self.attrs@, kind, ValueView::Boolean(value));
        }
        SecItemQueryParams { attrs }
    }

    /// Asks for the keys with the given application label: the fingerprint of the
    /// public key, which both keys of a pair carry.
    pub fn application_label(self, label: AttrApplicationLabel) -> (r: SecItemQueryParams)
        ensures
            r@ == self@.push((Constant::AttrApplicationLabel, ValueView::Data(label@))),
            r@.len() == self@.len() + 1,
    {
        self.with_attr(&label)
    }

    /// Asks for the items with the given application tag.
    pub fn application_tag(self, tag: AttrApplicationTag) -> (r: SecItemQueryParams)
        ensures
            r@ == self@.push((Constant::AttrApplicationTag, ValueView::Data(tag@))),
            r@.len() == self@.len() + 1,
    {
        self.with_attr(&tag)
    }

    /// Asks for the keys of the given class.
    pub fn key_class(self, key_class: AttrKeyClass) -> (r: SecItemQueryParams)
        ensures
            r@ == self@.push((Constant::AttrKeyClass, ValueView::Constant(key_class.constant()))),
            r@.len() == self@.len() + 1,
    {
        self.with_attr(&key_class)
    }

    /// Asks for the keys of the given type.
    pub fn key_type(self, key_type: AttrKeyType) -> (r: SecItemQueryParams)
        ensures
            r@ == self@.push((Constant::AttrKeyType, ValueView::Constant(key_type.constant()))),
            r@.len() == self@.len() + 1,
    {
        self.with_attr(&key_type)
    }

    /// Asks for the items with the given label.
    pub fn label(self, label: AttrLabel) -> (r: SecItemQueryParams)
        ensures
            r@ == self@.push((Constant::AttrLabel, ValueView::String(label@))),
            r@.len() == self@.len() + 1,
    {
        self.with_attr(&label)
    }

    /// Asks for the keys that are, or are not, stored in the keychain for good.
    pub fn permanent(self, value: bool) -> (r: SecItemQueryParams)
        ensures
            r@ == self@.push((Constant::AttrIsPermanent, ValueView::Boolean(value))),
            r@.len() == self@.len() + 1,
    {
        self.with_boolean(AttrKind::Permanent, value)
    }

    /// Asks for the items that are, or are not, synchronized between devices.
    pub fn synchronizable(self, value: bool) -> (r: SecItemQueryParams)
        ensures
            r@ == self@.push((Constant::AttrSynchronizable, ValueView::Boolean(value))),
            r@.len() == self@.len() + 1,
    {
        self.with_boolean(AttrKind::Synchronizable, value)
    }

    /// Asks for the keys that the given token holds.
    pub fn token_id(self, value: AttrTokenId) -> (r: SecItemQueryParams)
        ensures
            r@ == self@.push((Constant::AttrTokenID, ValueView::Constant(value.constant()))),
            r@.len() == self@.len() + 1,
    {
        self.with_attr(&value)
    }

    /// Sets the message that the user is shown when a key that the query found is
    /// used and the use has to be authorized.
    pub fn use_operation_prompt(self, value: &str) -> (r: SecItemQueryParams)
        ensures
            r@ == self@.push((Constant::UseOperationPrompt, ValueView::String(value@))),
            r@.len() == self@.len() + 1,
    {
        proof {
            use_type_invariant(&self);
        }
        let mut attrs = self.attrs;
        attrs.add_string(Constant::UseOperationPrompt, value);
        proof {
            lemma_well_typed_push_other(
                self.attrs@,
                Constant::UseOperationPrompt,
                ValueView::String(value@),
            );
        }
        SecItemQueryParams { attrs }
    }

    /// Bounds the number of items that the search may give. A number has to fit the
    /// framework's signed 64-bit numbers.
    pub fn match_limit(self, limit: SecMatchLimit) -> (r: SecItemQueryParams)
        requires
            limit matches SecMatchLimit::Number(n) ==> n <= i64::MAX,
        ensures
            r@ == self@.push((Constant::MatchLimit, limit.value())),
            r@.len() == self@.len() + 1,
    {
        proof {
            use_type_invariant(&self);
        }
        let mut attrs = self.attrs;
        attrs.add(Constant::MatchLimit, limit.as_CFType());
        proof {
            lemma_well_typed_push_other(self.attrs@, Constant::MatchLimit, limit.value());
        }
        SecItemQueryParams { attrs }
    }

    /// The number of filters.
    pub fn len(&self) -> (r: usize)
        ensures
            r == self@.len(),
    {
        self.attrs.len()
    }

    /// The filters as a builder, to which a lookup adds what it forces. Every filter
    /// has a value of the shape that its key expects.
    pub fn into_builder(self) -> (r: DictionaryBuilder)
        ensures
            r@ == self@,
            well_typed(r@),
    {
        proof {
            use_type_invariant(&self);
        }
        self.attrs
    }

    /// The filters as a dictionary, in the order in which they were added. A query
    /// without filters gives the empty dictionary.
    pub fn into_dictionary(self) -> (r: Dictionary)
        ensures
            r@ == self@,
            well_typed(r@),
    {
        self.into_builder().into_dictionary()
    }
}

impl Default for SecItemQueryParams {
    fn default() -> (r: SecItemQueryParams)
        ensures
            r@ == DictionaryView::empty(),
    {
        SecItemQueryParams::new()
    }
}

} // verus!
