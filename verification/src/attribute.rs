//! Named string values, as collections and tickets carry them.

use vstd::prelude::*;
use vstd::string::*;

verus! {

/// A named string value attached to a collection or a ticket.
#[derive(Clone, Debug, PartialEq, Eq)]
pub struct Attribute {
    pub key: String,
    pub value: String,
}

/// What an [`Attribute`] says: its key and its value as character sequences.
pub struct AttributeView {
    pub key: Seq<char>,
    pub value: Seq<char>,
}

impl View for Attribute {
    type V = AttributeView;

    open spec fn view(&self) -> AttributeView {
        AttributeView { key: self.key@, value: self.value@ }
    }
}

impl DeepView for Attribute {
    type V = AttributeView;

    open spec fn deep_view(&self) -> AttributeView {
        self@
    }
}

/// The value of the first attribute of `attrs` whose key is `key`, if there is
/// one. Later attributes with the same key are not looked at.
pub open spec fn lookup(attrs: Seq<AttributeView>, key: Seq<char>) -> Option<Seq<char>>
    decreases attrs.len(),
{
    if attrs.len() == 0 {
        None
    } else if attrs[0].key == key {
        Some(attrs[0].value)
    } else {
        lookup(attrs.drop_first(), key)
    }
}

/// Looking up a key that the first `k` attributes do not carry is looking it
/// up in the rest.
pub proof fn lemma_lookup_skip(attrs: Seq<AttributeView>, key: Seq<char>, k: int)
    requires
        0 <= k <= attrs.len(),
        forall|j: int| 0 <= j < k ==> (#[trigger] attrs[j]).key != key,
    ensures
        lookup(attrs, key) == lookup(attrs.skip(k), key),
    decreases k,
{
    if k == 0 {
        assert(attrs.skip(0) =~= attrs);
    } else {
        lemma_lookup_skip(attrs, key, k - 1);
        let rest = attrs.skip(k - 1);
        assert(rest[0] == attrs[k - 1]);
        assert(rest.drop_first() =~= attrs.skip(k));
    }
}

/// The value of an attribute whose key no earlier attribute carries is what
/// a lookup of that key gives.
pub proof fn lemma_lookup_first(attrs: Seq<AttributeView>, key: Seq<char>, i: int)
    requires
        0 <= i < attrs.len(),
        attrs[i].key == key,
        forall|j: int| 0 <= j < i ==> (#[trigger] attrs[j]).key != key,
    ensures
        lookup(attrs, key) == Some(attrs[i].value),
{
    lemma_lookup_skip(attrs, key, i);
    assert(attrs.skip(i)[0] == attrs[i]);
}

/// A key that no attribute carries is looked up in vain.
pub proof fn lemma_lookup_absent(attrs: Seq<AttributeView>, key: Seq<char>)
    requires
        forall|j: int| 0 <= j < attrs.len() ==> (#[trigger] attrs[j]).key != key,
    ensures
        lookup(attrs, key) is None,
{
    lemma_lookup_skip(attrs, key, attrs.len() as int);
}

/// Finds the value of the first attribute whose key is `key`.
pub fn find_value<'a>(attrs: &'a Vec<Attribute>, key: &str) -> (r: Option<&'a String>)
    ensures
        r.deep_view() == lookup(attrs.deep_view(), key@),
{
    let wanted: String = String::from_str(key);
    let ghost views = attrs.deep_view();
    let mut i: usize = 0;
    while i < attrs.len()
        invariant
            0 <= i <= attrs.len(),
            wanted@ == key@,
            views == attrs.deep_view(),
            forall|j: int| 0 <= j < i ==> (#[trigger] views[j]).key != key@,
        decreases attrs.len() - i,
    {
        if attrs[i].key == wanted {
            proof {
                lemma_lookup_skip(views, key@, i as int);
                assert(views.skip(i as int)[0] == views[i as int]);
            }
            return Some(&attrs[i].value);
        }
        i = i + 1;
    }
    proof {
        lemma_lookup_skip(views, key@, i as int);
    }
    None
}

} // verus!
