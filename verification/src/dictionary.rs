//! Parameter dictionaries: the ordered key/value lists that the framework's calls take.
//!
//! A [`DictionaryBuilder`] collects pairs; a [`Dictionary`] is what it turns into, and
//! is read-only. Both keep every pair they were given, in the order of the additions,
//! and neither refuses a key that is already there. Where a key occurs more than once,
//! the pair added last wins: [`Dictionary::find`] answers with it, and
//! [`Dictionary::effective`] drops the pairs that it overrides before the dictionary
//! goes to the framework, which takes a key once.

use crate::attr::{AttrKind, TAttr};
use crate::constant::Constant;
use crate::handle::Handle;
use crate::item::Class;
use vstd::prelude::*;
use vstd::slice::slice_to_vec;

verus! {

/// What a [`Value`] is, as a mathematical value.
pub enum ValueView {
    /// A truth value.
    Boolean(bool),
    /// A number.
    Number(i64),
    /// A string, as its characters.
    String(Seq<char>),
    /// Raw bytes.
    Data(Seq<u8>),
    /// One of the framework's named constants.
    Constant(Constant),
    /// An access control policy, by its reference.
    AccessControl(Handle),
    /// A keychain, by its reference.
    Keychain(Handle),
    /// A nested dictionary, as its pairs in their order.
    Dictionary(Seq<(Constant, ValueView)>),
}

/// What a dictionary is, as a mathematical value: its pairs in their order.
pub type DictionaryView = Seq<(Constant, ValueView)>;

/// A value of a parameter dictionary.
#[derive(Debug, PartialEq, Eq)]
pub enum Value {
    /// A truth value.
    Boolean(bool),
    /// A number.
    Number(i64),
    /// A string.
    String(String),
    /// Raw bytes.
    Data(Vec<u8>),
    /// One of the framework's named constants.
    Constant(Constant),
    /// An access control policy, by its reference.
    AccessControl(Handle),
    /// A keychain, by its reference.
    Keychain(Handle),
    /// A nested dictionary.
    Dictionary(Dictionary),
}

/// A read-only parameter dictionary, in the order in which its pairs were added.
#[derive(Debug, PartialEq, Eq)]
pub struct Dictionary {
    pairs: Vec<(Constant, Value)>,
}

/// Collects the pairs of a parameter dictionary.
#[derive(Debug, PartialEq, Eq)]
pub struct DictionaryBuilder {
    pairs: Vec<(Constant, Value)>,
}

/// The pairs of a dictionary as mathematical values, in their order.
pub open spec fn pairs_view(pairs: Seq<(Constant, Value)>) -> DictionaryView
    decreases pairs,
{
    if pairs.len() == 0 {
        Seq::empty()
    } else {
        pairs_view(pairs.drop_last()).push((pairs.last().0, pairs.last().1.view()))
    }
}

/// The value that a dictionary holds under a key: that of the last pair with the key.
pub open spec fn lookup(pairs: DictionaryView, key: Constant) -> Option<ValueView>
    decreases pairs.len(),
{
    if pairs.len() == 0 {
        None
    } else if pairs.last().0 == key {
        Some(pairs.last().1)
    } else {
        lookup(pairs.drop_last(), key)
    }
}

/// Whether some pair has a key.
pub open spec fn has_key(pairs: DictionaryView, key: Constant) -> bool {
    exists|i: int| 0 <= i < pairs.len() && pairs[i].0 == key
}

/// Whether no two pairs share a key.
pub open spec fn distinct_keys(pairs: DictionaryView) -> bool {
    forall|i: int, j: int| 0 <= i < j < pairs.len() ==> pairs[i].0 != pairs[j].0
}

/// The pairs that count: every pair but those that a later pair with the same key
/// overrides, in their order.
pub open spec fn effective(pairs: DictionaryView) -> DictionaryView
    decreases pairs.len(),
{
    if pairs.len() == 0 {
        Seq::empty()
    } else if has_key(pairs.drop_first(), pairs[0].0) {
        effective(pairs.drop_first())
    } else {
        seq![pairs[0]] + effective(pairs.drop_first())
    }
}

/// Whether every pair under an attribute's key holds a value of the shape that the
/// framework expects for that attribute.
pub open spec fn well_typed(pairs: DictionaryView) -> bool {
    forall|i: int, kind: AttrKind|
        0 <= i < pairs.len() && #[trigger] kind.constant() == pairs[i].0 ==> kind.accepts(
            #[trigger] pairs[i].1,
        )
}

/// A dictionary stays well typed when an attribute is added with a value of the shape
/// that its kind expects.
pub proof fn lemma_well_typed_push_attr(pairs: DictionaryView, kind: AttrKind, value: ValueView)
    requires
        well_typed(pairs),
        kind.accepts(value),
    ensures
        well_typed(pairs.push((kind.constant(), value))),
{
    let next = pairs.push((kind.constant(), value));
    assert forall|i: int, other: AttrKind|
        0 <= i < next.len() && #[trigger] other.constant() == next[i].0 implies other.accepts(
        #[trigger] next[i].1,
    ) by {
        if i == pairs.len() {
            AttrKind::lemma_constant_injective(other, kind);
        }
    }
}

/// A dictionary stays well typed when a pair is added under a key that is the key of
/// no attribute.
pub proof fn lemma_well_typed_push_other(pairs: DictionaryView, key: Constant, value: ValueView)
    requires
        well_typed(pairs),
        AttrKind::spec_from_tag(key) is None,
    ensures
        well_typed(pairs.push((key, value))),
{
}

/// `pairs_view` keeps the length and maps the pairs one by one.
pub proof fn lemma_pairs_view(pairs: Seq<(Constant, Value)>)
    ensures
        pairs_view(pairs).len() == pairs.len(),
        forall|i: int|
            0 <= i < pairs.len() ==> #[trigger] pairs_view(pairs)[i] == (pairs[i].0, pairs[i].1@),
    decreases pairs.len(),
{
    if pairs.len() > 0 {
        let rest = pairs.drop_last();
        lemma_pairs_view(rest);
        assert(pairs_view(pairs) == pairs_view(rest).push((pairs.last().0, pairs.last().1@)));
    }
}

/// Adding a pair to the exec list adds its view to the view.
pub proof fn lemma_pairs_view_push(pairs: Seq<(Constant, Value)>, key: Constant, value: Value)
    ensures
        pairs_view(pairs.push((key, value))) == pairs_view(pairs).push((key, value@)),
{
    assert(pairs.push((key, value)).drop_last() =~= pairs);
}

/// A key that was just added is found with the value it was added with, whatever the
/// dictionary held under it before.
pub proof fn lemma_lookup_last_wins(pairs: DictionaryView, key: Constant, value: ValueView)
    ensures
        lookup(pairs.push((key, value)), key) == Some(value),
{
}

/// Adding a pair under one key changes nothing under another.
pub proof fn lemma_lookup_other_key(
    pairs: DictionaryView,
    added: Constant,
    value: ValueView,
    key: Constant,
)
    requires
        added != key,
    ensures
        lookup(pairs.push((added, value)), key) == lookup(pairs, key),
{
    assert(pairs.push((added, value)).drop_last() =~= pairs);
}

/// A key is found exactly if some pair has it.
pub proof fn lemma_lookup_some_iff_present(pairs: DictionaryView, key: Constant)
    ensures
        lookup(pairs, key) is Some <==> has_key(pairs, key),
    decreases pairs.len(),
{
    if pairs.len() > 0 {
        let rest = pairs.drop_last();
        lemma_lookup_some_iff_present(rest, key);
        if pairs.last().0 != key && lookup(rest, key) is None {
            assert forall|i: int| 0 <= i < pairs.len() implies pairs[i].0 != key by {
                if i < rest.len() {
                    assert(rest[i].0 == pairs[i].0);
                }
            }
        }
    }
}

/// Looking a key up in a dictionary with one more pair in front: the pairs behind
/// answer if they have the key, and the pair in front answers if they do not.
pub proof fn lemma_lookup_front(head: (Constant, ValueView), tail: DictionaryView, key: Constant)
    ensures
        lookup(seq![head] + tail, key) == if lookup(tail, key) is Some {
            lookup(tail, key)
        } else if head.0 == key {
            Some(head.1)
        } else {
            None
        },
    decreases tail.len(),
{
    let all = seq![head] + tail;
    if tail.len() == 0 {
        assert(all.drop_last() =~= tail);
    } else {
        assert(all.drop_last() =~= seq![head] + tail.drop_last());
        lemma_lookup_front(head, tail.drop_last(), key);
    }
}

/// The pairs that count have the keys of all pairs.
pub proof fn lemma_effective_keys(pairs: DictionaryView, key: Constant)
    ensures
        has_key(effective(pairs), key) <==> has_key(pairs, key),
    decreases pairs.len(),
{
    if pairs.len() > 0 {
        let tail = pairs.drop_first();
        lemma_effective_keys(tail, key);
        lemma_effective_keys(tail, pairs[0].0);
        if has_key(pairs, key) {
            let i = choose|i: int| 0 <= i < pairs.len() && pairs[i].0 == key;
            if i > 0 {
                assert(tail[i - 1].0 == key);
            }
        }
        if has_key(tail, key) {
            let i = choose|i: int| 0 <= i < tail.len() && tail[i].0 == key;
            assert(pairs[i + 1].0 == key);
        }
        let rest = effective(tail);
        if !has_key(tail, pairs[0].0) {
            let kept = seq![pairs[0]] + rest;
            if has_key(rest, key) {
                let i = choose|i: int| 0 <= i < rest.len() && rest[i].0 == key;
                assert(kept[i + 1].0 == key);
            }
            if has_key(kept, key) {
                let i = choose|i: int| 0 <= i < kept.len() && kept[i].0 == key;
                if i > 0 {
                    assert(rest[i - 1].0 == key);
                } else {
                    assert(pairs[0].0 == key);
                }
            }
            if pairs[0].0 == key {
                assert(kept[0].0 == key);
            }
        }
    }
}

/// Among the pairs that count no two share a key.
pub proof fn lemma_effective_distinct(pairs: DictionaryView)
    ensures
        distinct_keys(effective(pairs)),
    decreases pairs.len(),
{
    if pairs.len() > 0 {
        let tail = pairs.drop_first();
        lemma_effective_distinct(tail);
        if !has_key(tail, pairs[0].0) {
            let rest = effective(tail);
            let kept = seq![pairs[0]] + rest;
            lemma_effective_keys(tail, pairs[0].0);
            assert forall|i: int, j: int| 0 <= i < j < kept.len() implies kept[i].0
                != kept[j].0 by {
                if i == 0 {
                    assert(rest[j - 1] == kept[j]);
                } else {
                    assert(rest[i - 1] == kept[i]);
                    assert(rest[j - 1] == kept[j]);
                }
            }
        }
    }
}

/// The pairs that count answer every lookup as all pairs do: of several pairs with
/// one key the last one wins.
pub proof fn lemma_effective_lookup(pairs: DictionaryView, key: Constant)
    ensures
        lookup(effective(pairs), key) == lookup(pairs, key),
    decreases pairs.len(),
{
    if pairs.len() > 0 {
        let head = pairs[0];
        let tail = pairs.drop_first();
        assert(pairs =~= seq![head] + tail);
        lemma_effective_lookup(tail, key);
        lemma_lookup_front(head, tail, key);
        lemma_lookup_front(head, effective(tail), key);
        lemma_lookup_some_iff_present(tail, key);
    }
}

/// Every pair that counts is one of the pairs.
pub proof fn lemma_effective_subset(pairs: DictionaryView)
    ensures
        forall|i: int|
            0 <= i < effective(pairs).len() ==> pairs.contains(#[trigger] effective(pairs)[i]),
    decreases pairs.len(),
{
    if pairs.len() > 0 {
        let tail = pairs.drop_first();
        lemma_effective_subset(tail);
        assert forall|i: int| 0 <= i < effective(pairs).len() implies pairs.contains(
            #[trigger] effective(pairs)[i],
        ) by {
            let pair = effective(pairs)[i];
            if !has_key(tail, pairs[0].0) && i == 0 {
                assert(pairs[0] == pair);
            } else {
                let k = if has_key(tail, pairs[0].0) {
                    i
                } else {
                    i - 1
                };
                assert(effective(tail)[k] == pair);
                let j = choose|j: int| 0 <= j < tail.len() && tail[j] == pair;
                assert(pairs[j + 1] == pair);
            }
        }
    }
}

/// The pairs that count of a well-typed dictionary are well typed.
pub proof fn lemma_effective_well_typed(pairs: DictionaryView)
    requires
        well_typed(pairs),
    ensures
        well_typed(effective(pairs)),
{
    lemma_effective_subset(pairs);
    let kept = effective(pairs);
    assert forall|i: int, kind: AttrKind|
        0 <= i < kept.len() && #[trigger] kind.constant() == kept[i].0 implies kind.accepts(
        #[trigger] kept[i].1,
    ) by {
        let j = choose|j: int| 0 <= j < pairs.len() && pairs[j] == kept[i];
        assert(kind.constant() == pairs[j].0);
        assert(kind.accepts(pairs[j].1));
    }
}

/// Where no two pairs share a key, all pairs count.
pub proof fn lemma_effective_of_distinct(pairs: DictionaryView)
    requires
        distinct_keys(pairs),
    ensures
        effective(pairs) == pairs,
    decreases pairs.len(),
{
    if pairs.len() > 0 {
        let tail = pairs.drop_first();
        assert forall|i: int, j: int| 0 <= i < j < tail.len() implies tail[i].0 != tail[j].0 by {
            assert(tail[i] == pairs[i + 1]);
            assert(tail[j] == pairs[j + 1]);
        }
        lemma_effective_of_distinct(tail);
        if has_key(tail, pairs[0].0) {
            let i = choose|i: int| 0 <= i < tail.len() && tail[i].0 == pairs[0].0;
            assert(tail[i] == pairs[i + 1]);
        }
        assert(pairs =~= seq![pairs[0]] + tail);
    }
}

impl View for Value {
    type V = ValueView;

    open spec fn view(&self) -> ValueView
        decreases self,
    {
        match self {
            Value::Boolean(b) => ValueView::Boolean(*b),
            Value::Number(n) => ValueView::Number(*n),
            Value::String(s) => ValueView::String(s@),
            Value::Data(d) => ValueView::Data(d@),
            Value::Constant(c) => ValueView::Constant(*c),
            Value::AccessControl(h) => ValueView::AccessControl(*h),
            Value::Keychain(h) => ValueView::Keychain(*h),
            Value::Dictionary(d) => ValueView::Dictionary(d.view()),
        }
    }
}

impl View for Dictionary {
    type V = DictionaryView;

    closed spec fn view(&self) -> DictionaryView
        decreases self,
    {
        pairs_view(self.pairs@)
    }
}

impl View for DictionaryBuilder {
    type V = DictionaryView;

    closed spec fn view(&self) -> DictionaryView {
        pairs_view(self.pairs@)
    }
}

fn duplicate_pairs(pairs: &Vec<(Constant, Value)>) -> (r: Vec<(Constant, Value)>)
    ensures
        pairs_view(r@) == pairs_view(pairs@),
    decreases pairs,
{
    broadcast use vstd::std_specs::vec::axiom_vec_index_decreases;

    let mut copy: Vec<(Constant, Value)> = Vec::new();
    let mut i: usize = 0;
    while i < pairs.len()
        invariant
            i <= pairs@.len(),
            pairs_view(copy@) == pairs_view(pairs@.subrange(0, i as int)),
        decreases pairs@.len() - i,
    {
        let value = pairs[i].1.duplicate();
        proof {
            let before = pairs@.subrange(0, i as int);
            let after = pairs@.subrange(0, i + 1);
            assert(after.drop_last() =~= before);
            lemma_pairs_view_push(copy@, pairs@[i as int].0, value);
        }
        copy.push((pairs[i].0, value));
        i = i + 1;
    }
    proof {
        assert(pairs@.subrange(0, i as int) =~= pairs@);
    }
    copy
}

impl Value {
    /// A copy of this value, nested dictionaries included.
    pub fn duplicate(&self) -> (r: Value)
        ensures
            r@ == self@,
        decreases self,
    {
        match self {
            Value::Boolean(flag) => Value::Boolean(*flag),
            Value::Number(number) => Value::Number(*number),
            Value::String(text) => Value::String(text.clone()),
            Value::Data(bytes) => Value::Data(slice_to_vec(bytes.as_slice())),
            Value::Constant(constant) => Value::Constant(*constant),
            Value::AccessControl(handle) => Value::AccessControl(*handle),
            Value::Keychain(handle) => Value::Keychain(*handle),
            Value::Dictionary(nested) => Value::Dictionary(nested.duplicate()),
        }
    }
}

impl Clone for Value {
    fn clone(&self) -> (r: Value)
        ensures
            r@ == self@,
    {
        self.duplicate()
    }
}

impl Clone for Dictionary {
    fn clone(&self) -> (r: Dictionary)
        ensures
            r@ == self@,
    {
        self.duplicate()
    }
}

impl Clone for DictionaryBuilder {
    fn clone(&self) -> (r: DictionaryBuilder)
        ensures
            r@ == self@,
    {
        DictionaryBuilder { pairs: duplicate_pairs(&self.pairs) }
    }
}

impl Dictionary {
    /// A copy of this dictionary, nested dictionaries included.
    pub fn duplicate(&self) -> (r: Dictionary)
        ensures
            r@ == self@,
        decreases self,
    {
        Dictionary { pairs: duplicate_pairs(&self.pairs) }
    }

    /// The number of pairs, a key that occurs twice counted twice.
    pub fn len(&self) -> (r: usize)
        ensures
            r == self@.len(),
    {
        proof {
            lemma_pairs_view(self.pairs@);
        }
        self.pairs.len()
    }

    /// Whether the dictionary has no pair.
    pub fn is_empty(&self) -> (r: bool)
        ensures
            r == (self@.len() == 0),
    {
        self.len() == 0
    }

    /// The key of the pair at a position.
    pub fn key(&self, index: usize) -> (r: Constant)
        requires
            index < self@.len(),
        ensures
            r == self@[index as int].0,
    {
        proof {
            lemma_pairs_view(self.pairs@);
        }
        self.pairs[index].0
    }

    /// The value of the pair at a position.
    pub fn value(&self, index: usize) -> (r: &Value)
        requires
            index < self@.len(),
        ensures
            r@ == self@[index as int].1,
    {
        proof {
            lemma_pairs_view(self.pairs@);
        }
        &self.pairs[index].1
    }

    fn has_key_from(&self, key: Constant, start: usize) -> (r: bool)
        requires
            start <= self@.len(),
        ensures
            r == has_key(self@.subrange(start as int, self@.len() as int), key),
    {
        proof {
            lemma_pairs_view(self.pairs@);
        }
        let ghost tail = self@.subrange(start as int, self@.len() as int);
        let mut j: usize = start;
        while j < self.pairs.len()
            invariant
                start <= j <= self.pairs@.len(),
                self@.len() == self.pairs@.len(),
                tail == self@.subrange(start as int, self@.len() as int),
                forall|k: int|
                    0 <= k < self.pairs@.len() ==> (#[trigger] self@[k]).0 == self.pairs@[k].0,
                forall|k: int| start <= k < j ==> (#[trigger] self@[k]).0 != key,
            decreases self.pairs@.len() - j,
        {
            if self.pairs[j].0 == key {
                assert(tail[j - start].0 == key);
                return true;
            }
            j = j + 1;
        }
        proof {
            assert forall|k: int| 0 <= k < tail.len() implies tail[k].0 != key by {
                assert(tail[k] == self@[k + start]);
            }
        }
        false
    }

    /// The dictionary as the framework is to see it: of several pairs with one key
    /// only the last, and every other pair, in their order. Every lookup answers as
    /// before, and no key is left twice. Dictionaries nested in values stay as they
    /// are.
    pub fn effective(&self) -> (r: Dictionary)
        ensures
            r@ == effective(self@),
            distinct_keys(r@),
            forall|key: Constant| lookup(r@, key) == lookup(self@, key),
            distinct_keys(self@) ==> r@ == self@,
            well_typed(self@) ==> well_typed(r@),
    {
        proof {
            lemma_pairs_view(self.pairs@);
        }
        let mut kept: Vec<(Constant, Value)> = Vec::new();
        let mut i: usize = 0;
        proof {
            assert(self@.subrange(0, self@.len() as int) =~= self@);
        }
        while i < self.pairs.len()
            invariant
                i <= self.pairs@.len(),
                self@.len() == self.pairs@.len(),
                forall|k: int|
                    0 <= k < self.pairs@.len() ==> #[trigger] self@[k] == (
                        self.pairs@[k].0,
                        self.pairs@[k].1@,
                    ),
                effective(self@) == pairs_view(kept@) + effective(
                    self@.subrange(i as int, self@.len() as int),
                ),
            decreases self.pairs@.len() - i,
        {
            let ghost here = self@.subrange(i as int, self@.len() as int);
            let ghost next = self@.subrange(i + 1, self@.len() as int);
            proof {
                assert(here.drop_first() =~= next);
                assert(here[0] == self@[i as int]);
            }
            let overridden = self.has_key_from(self.pairs[i].0, i + 1);
            if !overridden {
                let value = self.pairs[i].1.duplicate();
                proof {
                    lemma_pairs_view_push(kept@, self.pairs@[i as int].0, value);
                    assert(pairs_view(kept@).push(self@[i as int]) + effective(next) =~= pairs_view(
                        kept@,
                    ) + (seq![self@[i as int]] + effective(next)));
                }
                kept.push((self.pairs[i].0, value));
            }
            i = i + 1;
        }
        let r = Dictionary { pairs: kept };
        proof {
            assert(self@.subrange(i as int, self@.len() as int) =~= Seq::<
                (Constant, ValueView),
            >::empty());
            assert(r@ =~= effective(self@));
            lemma_effective_distinct(self@);
            assert forall|key: Constant| lookup(r@, key) == lookup(self@, key) by {
                lemma_effective_lookup(self@, key);
            }
            if distinct_keys(self@) {
                lemma_effective_of_distinct(self@);
            }
            if well_typed(self@) {
                lemma_effective_well_typed(self@);
            }
        }
        r
    }

    /// Looks a key up. Of several pairs with the key, the one added last answers.
    pub fn find(&self, key: Constant) -> (r: Option<&Value>)
        ensures
            match r {
                Some(value) => lookup(self@, key) == Some(value@),
                None => lookup(self@, key) is None,
            },
    {
        let mut i: usize = self.pairs.len();
        proof {
            lemma_pairs_view(self.pairs@);
            assert(self@.subrange(0, i as int) =~= self@);
        }
        while i > 0
            invariant
                i <= self.pairs.len(),
                self@.len() == self.pairs@.len(),
                forall|j: int|
                    0 <= j < self.pairs@.len() ==> #[trigger] self@[j] == (
                        self.pairs@[j].0,
                        self.pairs@[j].1@,
                    ),
                lookup(self@, key) == lookup(self@.subrange(0, i as int), key),
            decreases i,
        {
            let ghost prefix = self@.subrange(0, i as int);
            assert(prefix.drop_last() =~= self@.subrange(0, i - 1));
            i = i - 1;
            if self.pairs[i].0 == key {
                return Some(&self.pairs[i].1);
            }
        }
        None
    }

    /// Whether some pair has the key.
    pub fn contains_key(&self, key: Constant) -> (r: bool)
        ensures
            r == lookup(self@, key) is Some,
            r == has_key(self@, key),
    {
        proof {
            lemma_lookup_some_iff_present(self@, key);
        }
        self.find(key).is_some()
    }
}

impl DictionaryBuilder {
    /// A builder without pairs.
    pub fn new() -> (r: DictionaryBuilder)
        ensures
            r@ == DictionaryView::empty(),
    {
        DictionaryBuilder { pairs: Vec::new() }
    }

    /// The number of pairs added so far.
    pub fn len(&self) -> (r: usize)
        ensures
            r == self@.len(),
    {
        proof {
            lemma_pairs_view(self.pairs@);
        }
        self.pairs.len()
    }

    /// Adds a pair behind those already there. A key that is already there stays, and
    /// the new pair is the one that [`Dictionary::find`] will answer with.
    pub fn add(&mut self, key: Constant, value: Value)
        ensures
            final(self)@ == old(self)@.push((key, value@)),
    {
        proof {
            lemma_pairs_view_push(self.pairs@, key, value);
        }
        self.pairs.push((key, value));
    }

    /// Adds an attribute under the key of its kind.
    pub fn add_attr<A: TAttr>(&mut self, attr: &A)
        ensures
            final(self)@ == old(self)@.push((attr.spec_kind().constant(), attr.spec_value())),
            attr.spec_kind().accepts(attr.spec_value()),
    {
        let key = Constant::from(attr.kind());
        let value = attr.as_CFType();
        self.add(key, value);
    }

    /// Adds a truth value under a key.
    pub fn add_boolean(&mut self, key: Constant, value: bool)
        ensures
            final(self)@ == old(self)@.push((key, ValueView::Boolean(value))),
    {
        self.add(key, Value::Boolean(value));
    }

    /// Adds the class of the items that a call is about, under the class key.
    pub fn add_class(&mut self, class: Class)
        ensures
            final(self)@ == old(self)@.push(
                (Constant::Class, ValueView::Constant(class.constant())),
            ),
    {
        self.add(Constant::Class, Value::Constant(class.as_CFString()));
    }

    /// Adds a number under a key.
    pub fn add_number(&mut self, key: Constant, value: i64)
        ensures
            final(self)@ == old(self)@.push((key, ValueView::Number(value))),
    {
        self.add(key, Value::Number(value));
    }

    /// Adds a string under a key.
    pub fn add_string(&mut self, key: Constant, value: &str)
        ensures
            final(self)@ == old(self)@.push((key, ValueView::String(value@))),
    {
        self.add(key, Value::String(value.to_owned()));
    }

    /// Turns the builder into the read-only dictionary of its pairs, in their order.
    pub fn into_dictionary(self) -> (r: Dictionary)
        ensures
            r@ == self@,
    {
        Dictionary { pairs: self.pairs }
    }
}

impl Default for DictionaryBuilder {
    fn default() -> (r: DictionaryBuilder)
        ensures
            r@ == DictionaryView::empty(),
    {
        DictionaryBuilder::new()
    }
}

} // verus!
