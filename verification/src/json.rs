//! The boundary to `serde_json`: JSON documents as trees, and the calls that
//! parse, inspect, build and print them.

use vstd::prelude::*;

verus! {

/// `serde_json::Value`, carried as an opaque document.
#[verifier::external_type_specification]
#[verifier::external_body]
pub struct ExValue(serde_json::Value);

/// `serde_json::Number`, carried as an opaque number.
#[verifier::external_type_specification]
#[verifier::external_body]
pub struct ExNumber(serde_json::Number);

/// A JSON document as a mathematical tree.
pub enum Json {
    Null,
    Bool(bool),
    Number(serde_json::Number),
    Text(Seq<char>),
    Array(Seq<Json>),
    /// The members in their order; no key occurs twice.
    Object(Seq<(Seq<char>, Json)>),
}

impl Json {
    /// The boolean, where the document is one.
    pub open spec fn boolean(self) -> Option<bool> {
        match self {
            Json::Bool(b) => Some(b),
            _ => None,
        }
    }

    /// The text, where the document is a string.
    pub open spec fn text(self) -> Option<Seq<char>> {
        match self {
            Json::Text(text) => Some(text),
            _ => None,
        }
    }

    /// The elements, where the document is an array.
    pub open spec fn items(self) -> Option<Seq<Json>> {
        match self {
            Json::Array(items) => Some(items),
            _ => None,
        }
    }

    /// The member under a key, where the document is an object that has one.
    pub open spec fn member(self, key: Seq<char>) -> Option<Json> {
        match self {
            Json::Object(members) => lookup(members, key),
            _ => None,
        }
    }
}

/// The document under a key in a list of members: that of the last member
/// with this key, which is the only one where the keys are distinct.
pub open spec fn lookup(members: Seq<(Seq<char>, Json)>, key: Seq<char>) -> Option<Json>
    decreases members.len(),
{
    if members.len() == 0 {
        None
    } else if members.last().0 == key {
        Some(members.last().1)
    } else {
        lookup(members.drop_last(), key)
    }
}

/// The tree that a `serde_json::Value` holds.
pub uninterp spec fn json_of(value: serde_json::Value) -> Json;

/// The tree that `serde_json::from_str` reads from a text, if it reads one.
pub uninterp spec fn json_parse(text: Seq<char>) -> Option<Json>;

/// The bytes that `serde_json::to_vec_pretty` prints for a tree.
pub uninterp spec fn json_bytes(tree: Json) -> Seq<u8>;

/// The trees of a sequence of documents.
pub open spec fn trees(values: Seq<serde_json::Value>) -> Seq<Json> {
    Seq::new(values.len(), |i: int| json_of(values[i]))
}

/// The members that a list of keyed documents spells, in order.
pub open spec fn members(fields: Seq<(String, serde_json::Value)>) -> Seq<(Seq<char>, Json)> {
    Seq::new(fields.len(), |i: int| (fields[i].0@, json_of(fields[i].1)))
}

/// Whether no key occurs twice in a list of keyed documents.
pub open spec fn distinct_keys(fields: Seq<(String, serde_json::Value)>) -> bool {
    forall|i: int, j: int| 0 <= i < j < fields.len() ==> fields[i].0@ != fields[j].0@
}

/// Looking up in a list with one more member finds that member under its
/// key, and under any other key what the list had before.
pub proof fn lemma_lookup_push()
    ensures
        forall|members: Seq<(Seq<char>, Json)>, member: (Seq<char>, Json), key: Seq<char>|
            #[trigger] lookup(members.push(member), key) == if member.0 == key {
                Some(member.1)
            } else {
                lookup(members, key)
            },
{
    assert forall|members: Seq<(Seq<char>, Json)>, member: (Seq<char>, Json), key: Seq<char>|
        #[trigger] lookup(members.push(member), key) == if member.0 == key {
            Some(member.1)
        } else {
            lookup(members, key)
        } by {
        assert(members.push(member).drop_last() =~= members);
    }
}

/// A key under which a list has nothing is the key of none of its members.
pub proof fn lemma_lookup_absent(members: Seq<(Seq<char>, Json)>, key: Seq<char>)
    requires
        lookup(members, key) is None,
    ensures
        forall|i: int| 0 <= i < members.len() ==> (#[trigger] members[i]).0 != key,
    decreases members.len(),
{
    if members.len() > 0 {
        lemma_lookup_absent(members.drop_last(), key);
        assert forall|i: int| 0 <= i < members.len() implies (#[trigger] members[i]).0 != key by {
            if i < members.len() - 1 {
                assert(members[i] == members.drop_last()[i]);
            }
        }
    }
}

/// `serde_json::from_str` at `serde_json::Value`: the document that the text
/// spells, or nothing where the parser refuses the text. It refuses the empty
/// text, in which it finds the end where a value should begin.
#[verifier::external_body]
pub(crate) fn parse(text: &str) -> (r: Option<serde_json::Value>)
    ensures
        match r {
            Some(value) => json_parse(text@) == Some(json_of(value)),
            None => json_parse(text@) is None,
        },
        text@.len() == 0 ==> r is None,
{
    serde_json::from_str::<serde_json::Value>(text).ok()
}

/// `serde_json::to_vec_pretty` on a `serde_json::Value`: it succeeds, and the
/// bytes are those of the document's tree, the members of each object in
/// their order. It succeeds on every document: the printer fails only where
/// its writer does or where a key is no text, and here it writes to a vector,
/// and the keys of a document are texts.
#[verifier::external_body]
pub(crate) fn to_vec_pretty(value: &serde_json::Value) -> (r: Option<Vec<u8>>)
    ensures
        r is Some,
        r matches Some(bytes) ==> bytes@ == json_bytes(json_of(*value)),
{
    serde_json::to_vec_pretty(value).ok()
}

/// `serde_json::Value::is_null`: whether the document is `null`.
pub assume_specification[ serde_json::Value::is_null ](value: &serde_json::Value) -> (r: bool)
    ensures
        r == (json_of(*value) is Null),
;

/// `serde_json::Value::is_object`: whether the document is an object.
pub assume_specification[ serde_json::Value::is_object ](value: &serde_json::Value) -> (r: bool)
    ensures
        r == (json_of(*value) is Object),
;

/// `serde_json::Value::as_bool`: the boolean of a boolean document, and
/// nothing of any other.
pub assume_specification[ serde_json::Value::as_bool ](value: &serde_json::Value) -> (r: Option<
    bool,
>)
    ensures
        r == json_of(*value).boolean(),
;

/// `serde_json::Value::as_str`: the text of a string document, and nothing of
/// any other.
pub assume_specification[ serde_json::Value::as_str ](value: &serde_json::Value) -> (r: Option<
    &str,
>)
    ensures
        match json_of(*value).text() {
            Some(text) => r matches Some(s) && s@ == text,
            None => r is None,
        },
;

/// `serde_json::Value::as_array`: the elements of an array document, in
/// order, and nothing of any other.
pub assume_specification[ serde_json::Value::as_array ](value: &serde_json::Value) -> (r: Option<
    &Vec<serde_json::Value>,
>)
    ensures
        match json_of(*value).items() {
            Some(items) => r matches Some(elements) && trees(elements@) == items,
            None => r is None,
        },
;

/// `serde_json::Value::get` with a string: the member of an object document
/// under that key, and nothing where there is none or the document is no
/// object. An object has at most one member under a key.
#[verifier::external_body]
pub(crate) fn member<'a>(value: &'a serde_json::Value, key: &str) -> (r: Option<
    &'a serde_json::Value,
>)
    ensures
        match json_of(*value).member(key@) {
            Some(tree) => r matches Some(found) && json_of(*found) == tree,
            None => r is None,
        },
{
    value.get(key)
}

/// `serde_json::Value::Null`: the `null` document.
#[verifier::external_body]
pub(crate) fn null() -> (r: serde_json::Value)
    ensures
        json_of(r) == Json::Null,
{
    serde_json::Value::Null
}

/// `serde_json::Value::Bool`: the document of a boolean.
#[verifier::external_body]
pub(crate) fn boolean(b: bool) -> (r: serde_json::Value)
    ensures
        json_of(r) == Json::Bool(b),
{
    serde_json::Value::Bool(b)
}

/// `serde_json::Value::String`: the document of a text.
#[verifier::external_body]
pub(crate) fn text(s: String) -> (r: serde_json::Value)
    ensures
        json_of(r) == Json::Text(s@),
{
    serde_json::Value::String(s)
}

/// `serde_json::Value::Array`: the array document of the given elements.
#[verifier::external_body]
pub(crate) fn array(elements: Vec<serde_json::Value>) -> (r: serde_json::Value)
    ensures
        json_of(r) == Json::Array(trees(elements@)),
{
    serde_json::Value::Array(elements)
}

/// `serde_json::Value::from_iter` on keyed documents: the object document
/// whose members are the given ones, in the given order; `serde_json` is
/// built to preserve it. Asked for distinct keys only, so that no entry
/// replaces another.
#[verifier::external_body]
pub(crate) fn object(fields: Vec<(String, serde_json::Value)>) -> (r: serde_json::Value)
    requires
        distinct_keys(fields@),
    ensures
        json_of(r) == Json::Object(members(fields@)),
{
    serde_json::Value::from_iter(fields)
}

/// The empty list of keyed documents.
pub(crate) fn no_fields() -> (r: Vec<(String, serde_json::Value)>)
    ensures
        distinct_keys(r@),
        members(r@) == Seq::<(Seq<char>, Json)>::empty(),
{
    let r: Vec<(String, serde_json::Value)> = Vec::new();
    assert(members(r@) =~= Seq::<(Seq<char>, Json)>::empty());
    r
}

/// Adds a member under a fresh key to a list of keyed documents.
pub(crate) fn put(fields: &mut Vec<(String, serde_json::Value)>, key: &str, value: serde_json::Value)
    requires
        distinct_keys(old(fields)@),
        lookup(members(old(fields)@), key@) is None,
    ensures
        distinct_keys(final(fields)@),
        members(final(fields)@) == members(old(fields)@).push((key@, json_of(value))),
{
    proof {
        lemma_lookup_absent(members(fields@), key@);
        assert forall|i: int| 0 <= i < fields@.len() implies fields@[i].0@ != key@ by {
            assert(members(fields@)[i].0 == fields@[i].0@);
        }
    }
    let owned = key.to_owned();
    fields.push((owned, value));
    assert(members(fields@) =~= members(old(fields)@).push((key@, json_of(value))));
}

/// Whether two texts are the same.
pub(crate) fn same_text(left: &str, right: &str) -> (r: bool)
    ensures
        r == (left@ == right@),
{
    left.to_owned() == right.to_owned()
}

} // verus!
