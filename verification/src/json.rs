//! JSON documents as plain data, and the two parsers that read them.

use vstd::prelude::*;

verus! {

/// A JSON document. A number keeps its value as an unsigned and as a signed integer, where it has
/// one; a fraction has neither.
#[derive(Debug)]
pub enum Json {
    Null,
    Bool(bool),
    Number { unsigned: Option<u64>, signed: Option<i64> },
    Str(String),
    Array(Vec<Json>),
    Object(Vec<(String, Json)>),
}

/// What a JSON document says.
pub enum JsonTree {
    Null,
    Bool(bool),
    Number { unsigned: Option<u64>, signed: Option<i64> },
    Str(Seq<char>),
    Array(Seq<JsonTree>),
    Object(Seq<(Seq<char>, JsonTree)>),
}

/// The value of the first entry named `key`, or null where there is none.
pub open spec fn first_entry(entries: Seq<(Seq<char>, JsonTree)>, key: Seq<char>) -> JsonTree
    decreases entries.len(),
{
    if entries.len() == 0 {
        JsonTree::Null
    } else if entries[0].0 == key {
        entries[0].1
    } else {
        first_entry(entries.drop_first(), key)
    }
}

impl JsonTree {
    /// Whether this is an object with a member named `key`.
    pub open spec fn has_member(self, key: Seq<char>) -> bool {
        match self {
            JsonTree::Object(entries) => exists|i: int|
                0 <= i < entries.len() && (#[trigger] entries[i]).0 == key,
            _ => false,
        }
    }

    /// The member named `key`. Null where this is no object or has no such member.
    pub open spec fn member(self, key: Seq<char>) -> JsonTree {
        match self {
            JsonTree::Object(entries) => first_entry(entries, key),
            _ => JsonTree::Null,
        }
    }

    pub open spec fn elements(self) -> Option<Seq<JsonTree>> {
        match self {
            JsonTree::Array(items) => Some(items),
            _ => None,
        }
    }

    pub open spec fn unsigned(self) -> Option<u64> {
        match self {
            JsonTree::Number { unsigned, .. } => unsigned,
            _ => None,
        }
    }

    pub open spec fn signed(self) -> Option<i64> {
        match self {
            JsonTree::Number { signed, .. } => signed,
            _ => None,
        }
    }

    pub open spec fn boolean(self) -> Option<bool> {
        match self {
            JsonTree::Bool(value) => Some(value),
            _ => None,
        }
    }

    pub open spec fn text(self) -> Option<Seq<char>> {
        match self {
            JsonTree::Str(value) => Some(value),
            _ => None,
        }
    }
}

impl Json {
    pub open spec fn tree(self) -> JsonTree
        decreases self,
    {
        match self {
            Json::Null => JsonTree::Null,
            Json::Bool(value) => JsonTree::Bool(value),
            Json::Number { unsigned, signed } => JsonTree::Number { unsigned, signed },
            Json::Str(value) => JsonTree::Str(value@),
            Json::Array(items) => JsonTree::Array(
                Seq::new(
                    items@.len(),
                    |i: int|
                        if 0 <= i < items@.len() {
                            items@[i].tree()
                        } else {
                            JsonTree::Null
                        },
                ),
            ),
            Json::Object(entries) => JsonTree::Object(
                Seq::new(
                    entries@.len(),
                    |i: int|
                        if 0 <= i < entries@.len() {
                            (entries@[i].0@, entries@[i].1.tree())
                        } else {
                            (Seq::<char>::empty(), JsonTree::Null)
                        },
                ),
            ),
        }
    }

    /// The member named `key`, if this is an object that has one. The first one counts.
    pub fn get(&self, key: &str) -> (member: Option<&Json>)
        ensures
            member is Some <==> self.tree().has_member(key@),
            match member {
                Some(value) => value.tree() == self.tree().member(key@),
                None => self.tree().member(key@) == JsonTree::Null,
            },
    {
        match self {
            Json::Object(entries) => {
                let wanted = key.to_owned();
                let ghost all = self.tree()->Object_0;
                let count: usize = entries.len();
                let mut i: usize = 0;
                assert(all.skip(0) =~= all);
                while i < count
                    invariant
                        *self == Json::Object(*entries),
                        all == self.tree()->Object_0,
                        i <= count == entries@.len() == all.len(),
                        wanted@ == key@,
                        first_entry(all, key@) == first_entry(all.skip(i as int), key@),
                        forall|j: int| 0 <= j < i ==> (#[trigger] all[j]).0 != key@,
                        forall|j: int|
                            0 <= j < all.len() ==> #[trigger] all[j] == (
                                entries@[j].0@,
                                entries@[j].1.tree(),
                            ),
                    decreases count - i,
                {
                    let ghost rest = all.skip(i as int);
                    assert(rest[0] == all[i as int]);
                    if entries[i].0 == wanted {
                        return Some(&entries[i].1);
                    }
                    assert(rest.drop_first() =~= all.skip(i + 1));
                    i += 1;
                }
                None
            },
            _ => None,
        }
    }

    pub fn is_null(&self) -> (null: bool)
        ensures
            null == (self.tree() == JsonTree::Null),
    {
        match self {
            Json::Null => true,
            _ => false,
        }
    }

    pub fn as_array(&self) -> (items: Option<&Vec<Json>>)
        ensures
            items is Some <==> self.tree().elements() is Some,
            items matches Some(items) ==> self.tree().elements() == Some(trees(items@)),
    {
        match self {
            Json::Array(items) => {
                assert(self.tree()->Array_0 =~= trees(items@));
                Some(items)
            },
            _ => None,
        }
    }

    pub fn as_u64(&self) -> (value: Option<u64>)
        ensures
            value == self.tree().unsigned(),
    {
        match self {
            Json::Number { unsigned, .. } => *unsigned,
            _ => None,
        }
    }

    pub fn as_i64(&self) -> (value: Option<i64>)
        ensures
            value == self.tree().signed(),
    {
        match self {
            Json::Number { signed, .. } => *signed,
            _ => None,
        }
    }

    pub fn as_bool(&self) -> (value: Option<bool>)
        ensures
            value == self.tree().boolean(),
    {
        match self {
            Json::Bool(value) => Some(*value),
            _ => None,
        }
    }

    pub fn as_str(&self) -> (value: Option<&String>)
        ensures
            match value {
                Some(text) => self.tree().text() == Some(text@),
                None => self.tree().text() is None,
            },
    {
        match self {
            Json::Str(text) => Some(text),
            _ => None,
        }
    }
}

/// What each document of a list says.
pub open spec fn trees(items: Seq<Json>) -> Seq<JsonTree> {
    items.map_values(|item: Json| item.tree())
}

#[verifier::external_type_specification]
#[verifier::external_body]
pub struct ExJsonError(serde_json::Error);

#[verifier::external_type_specification]
#[verifier::external_body]
pub struct ExBorrowedValue<'ctx>(serde_json_borrow::Value<'ctx>);

/// The document held by a value of `serde_json_borrow`.
pub uninterp spec fn borrowed_tree(value: serde_json_borrow::Value<'_>) -> JsonTree;

/// The document that `serde_json` reads from bytes into a value of `serde_json_borrow`, or `None`
/// where it refuses them.
pub uninterp spec fn parsed_slice(bytes: Seq<u8>) -> Option<JsonTree>;

/// Calls `serde_json::from_slice`. It succeeds on exactly the bytes that have a document, and the
/// value it gives holds that document.
#[verifier::external_body]
fn parse_borrowed(bytes: &[u8]) -> (parsed: Result<serde_json_borrow::Value<'_>, serde_json::Error>)
    ensures
        match parsed {
            Ok(value) => parsed_slice(bytes@) == Some(borrowed_tree(value)),
            Err(_) => parsed_slice(bytes@) is None,
        },
{
    serde_json::from_slice(bytes)
}

/// Takes a value of `serde_json_borrow` apart, variant by variant: `Number::as_u64` and
/// `Number::as_i64` give a number's integers, `ObjectAsVec::into_vec` an object's entries in their
/// order. The document stays the same.
#[verifier::external_body]
fn json_from_borrowed(value: serde_json_borrow::Value<'_>) -> (json: Json)
    ensures
        json.tree() == borrowed_tree(value),
{
    match value {
        serde_json_borrow::Value::Null => Json::Null,
        serde_json_borrow::Value::Bool(value) => Json::Bool(value),
        serde_json_borrow::Value::Number(n) => Json::Number { unsigned: n.as_u64(), signed: n.as_i64() },
        serde_json_borrow::Value::Str(text) => Json::Str(text.into_owned()),
        serde_json_borrow::Value::Array(items) => Json::Array(items.into_iter().map(json_from_borrowed).collect()),
        serde_json_borrow::Value::Object(entries) => Json::Object(
            entries.into_vec().into_iter().map(|entry| (entry.0.into_owned(), json_from_borrowed(entry.1))).collect(),
        ),
    }
}

/// Reads a notification's bytes as one JSON document.
pub fn parse_slice(bytes: &[u8]) -> (parsed: Option<Json>)
    ensures
        match parsed {
            Some(json) => parsed_slice(bytes@) == Some(json.tree()),
            None => parsed_slice(bytes@) is None,
        },
{
    match parse_borrowed(bytes) {
        Ok(value) => Some(json_from_borrowed(value)),
        Err(_) => None,
    }
}

#[verifier::external_type_specification]
#[verifier::external_body]
pub struct ExJsonValue(serde_json::Value);

/// The document held by a value of `serde_json`.
pub uninterp spec fn value_tree(value: serde_json::Value) -> JsonTree;

/// The document that `serde_json` reads from text into a value of its own, or `None` where it
/// refuses the text.
pub uninterp spec fn parsed_text(text: Seq<char>) -> Option<JsonTree>;

/// Calls `serde_json::from_str`. It succeeds on exactly the texts that have a document, and the
/// value it gives holds that document.
#[verifier::external_body]
fn parse_value(text: &str) -> (parsed: Result<serde_json::Value, serde_json::Error>)
    ensures
        match parsed {
            Ok(value) => parsed_text(text@) == Some(value_tree(value)),
            Err(_) => parsed_text(text@) is None,
        },
{
    serde_json::from_str(text)
}

/// Takes a value of `serde_json` apart, variant by variant: `Number::as_u64` and `Number::as_i64`
/// give a number's integers, an object's map gives its entries in its order. The document stays the
/// same.
#[verifier::external_body]
fn json_from_value(value: serde_json::Value) -> (json: Json)
    ensures
        json.tree() == value_tree(value),
{
    match value {
        serde_json::Value::Null => Json::Null,
        serde_json::Value::Bool(value) => Json::Bool(value),
        serde_json::Value::Number(n) => Json::Number { unsigned: n.as_u64(), signed: n.as_i64() },
        serde_json::Value::String(text) => Json::Str(text),
        serde_json::Value::Array(items) => Json::Array(items.into_iter().map(json_from_value).collect()),
        serde_json::Value::Object(entries) => Json::Object(
            entries.into_iter().map(|entry| (entry.0, json_from_value(entry.1))).collect(),
        ),
    }
}

/// Reads text as one JSON document.
pub fn parse_text(text: &str) -> (parsed: Option<Json>)
    ensures
        match parsed {
            Some(json) => parsed_text(text@) == Some(json.tree()),
            None => parsed_text(text@) is None,
        },
{
    match parse_value(text) {
        Ok(value) => Some(json_from_value(value)),
        Err(_) => None,
    }
}

/// Where several members have the same name the first one counts. Where none has it, and in all that
/// is no object, there is null.
pub proof fn law_first_member_of_a_name_counts(
    entries: Seq<(Seq<char>, JsonTree)>,
    key: Seq<char>,
    at: int,
)
    requires
        0 <= at <= entries.len(),
        forall|i: int| 0 <= i < at ==> (#[trigger] entries[i]).0 != key,
        at < entries.len() ==> entries[at].0 == key,
    ensures
        at < entries.len() ==> JsonTree::Object(entries).member(key) == entries[at].1,
        at == entries.len() ==> JsonTree::Object(entries).member(key) == JsonTree::Null,
        JsonTree::Object(entries).has_member(key) <==> at < entries.len(),
    decreases at,
{
    if at > 0 {
        let rest = entries.drop_first();
        assert forall|i: int| 0 <= i < at - 1 implies (#[trigger] rest[i]).0 != key by {
            assert(rest[i] == entries[i + 1]);
        }
        law_first_member_of_a_name_counts(rest, key, at - 1);
    }
}

/// Each kind of value answers to its own kind of question, with what it holds, and to no other.
pub proof fn law_values_answer_to_their_kind(value: JsonTree, key: Seq<char>)
    ensures
        value matches JsonTree::Array(items) ==> value.elements() == Some(items),
        value !is Array ==> value.elements() is None,
        value matches JsonTree::Number { unsigned, signed } ==> value.unsigned() == unsigned
            && value.signed() == signed,
        value !is Number ==> value.unsigned() is None && value.signed() is None,
        value matches JsonTree::Bool(held) ==> value.boolean() == Some(held),
        value !is Bool ==> value.boolean() is None,
        value matches JsonTree::Str(held) ==> value.text() == Some(held),
        value !is Str ==> value.text() is None,
        value !is Object ==> value.member(key) == JsonTree::Null && !value.has_member(key),
{
}

/// A document says what it holds: each value as it is, each element in its place, each member in its
/// place and under its name.
pub proof fn law_documents_say_what_they_hold(document: Json, i: int)
    ensures
        document is Null <==> document.tree() is Null,
        document matches Json::Bool(held) ==> document.tree() == JsonTree::Bool(held),
        document matches Json::Number { unsigned, signed } ==> document.tree().unsigned() == unsigned
            && document.tree().signed() == signed,
        document matches Json::Str(held) ==> document.tree().text() == Some(held@),
        document matches Json::Array(items) ==> (document.tree().elements() matches Some(elements)
            && elements.len() == items@.len() && (0 <= i < items@.len() ==> elements[i]
            == items@[i].tree())),
        document matches Json::Object(entries) ==> (document.tree() matches JsonTree::Object(members)
            && members.len() == entries@.len() && (0 <= i < entries@.len() ==> members[i].0
            == entries@[i].0@ && members[i].1 == entries@[i].1.tree())),
{
}

/// Documents in a list are taken one by one, in their order.
pub proof fn law_lists_keep_their_order(items: Seq<Json>, i: int)
    requires
        0 <= i < items.len(),
    ensures
        trees(items).len() == items.len(),
        trees(items)[i] == items[i].tree(),
{
}

} // verus!
