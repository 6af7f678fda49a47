//! JSON documents as trees: the form in which request bodies are written and
//! response bodies are read.

use crate::text::str_eq;
use vstd::prelude::*;

verus! {

/// A JSON document. A number keeps the text it was written with, so that no
/// digit is lost; an object keeps its members in the order they were written.
#[derive(Debug, PartialEq, Eq)]
pub enum Json {
    Null,
    Bool(bool),
    Number(String),
    String(String),
    Array(Vec<Json>),
    Object(Vec<Member>),
}

/// One member of an object: a name and the document under it.
#[derive(Debug, PartialEq, Eq)]
pub struct Member {
    pub name: String,
    pub value: Json,
}

/// The mathematical value of a [`Member`].
pub struct MemberValue {
    pub name: Seq<char>,
    pub value: JsonValue,
}

/// The mathematical value of a [`Json`] document.
pub enum JsonValue {
    Null,
    Bool(bool),
    Number(Seq<char>),
    String(Seq<char>),
    Array(Seq<JsonValue>),
    Object(Seq<MemberValue>),
}

impl View for Json {
    type V = JsonValue;

    open spec fn view(&self) -> JsonValue
        decreases self,
    {
        match self {
            Json::Null => JsonValue::Null,
            Json::Bool(b) => JsonValue::Bool(*b),
            Json::Number(n) => JsonValue::Number(n@),
            Json::String(s) => JsonValue::String(s@),
            Json::Array(items) => JsonValue::Array(
                Seq::new(
                    items.len() as nat,
                    |i: int|
                        if 0 <= i < items.len() {
                            items[i]@
                        } else {
                            JsonValue::Null
                        },
                ),
            ),
            Json::Object(entries) => JsonValue::Object(
                Seq::new(
                    entries.len() as nat,
                    |i: int|
                        if 0 <= i < entries.len() {
                            MemberValue { name: entries[i].name@, value: entries[i].value@ }
                        } else {
                            MemberValue { name: Seq::empty(), value: JsonValue::Null }
                        },
                ),
            ),
        }
    }
}

/// The values of a list of documents.
pub open spec fn items_view(items: Seq<Json>) -> Seq<JsonValue> {
    Seq::new(items.len(), |i: int| items[i]@)
}

/// The names and values of a list of members.
pub open spec fn entries_view(entries: Seq<Member>) -> Seq<MemberValue> {
    Seq::new(
        entries.len(),
        |i: int| MemberValue { name: entries[i].name@, value: entries[i].value@ },
    )
}

/// The value of an array is the array of its items' values.
pub proof fn lemma_array_view(items: Vec<Json>)
    ensures
        Json::Array(items)@ == JsonValue::Array(items_view(items@)),
{
    assert(Json::Array(items)@->Array_0 =~= items_view(items@));
}

/// The value of an object is the list of its members' names and values.
pub proof fn lemma_object_view(entries: Vec<Member>)
    ensures
        Json::Object(entries)@ == JsonValue::Object(entries_view(entries@)),
{
    assert(Json::Object(entries)@->Object_0 =~= entries_view(entries@));
}

/// The value of the first member called `key`.
pub open spec fn lookup(entries: Seq<MemberValue>, key: Seq<char>) -> Option<JsonValue>
    decreases entries.len(),
{
    if entries.len() == 0 {
        None
    } else if entries[0].name == key {
        Some(entries[0].value)
    } else {
        lookup(entries.drop_first(), key)
    }
}

/// The member `key` of an object; nothing for any other document.
pub open spec fn field(j: JsonValue, key: Seq<char>) -> Option<JsonValue> {
    match j {
        JsonValue::Object(entries) => lookup(entries, key),
        _ => None,
    }
}

/// The text of a string; nothing for any other document.
pub open spec fn string_of(j: JsonValue) -> Option<Seq<char>> {
    match j {
        JsonValue::String(s) => Some(s),
        _ => None,
    }
}

/// The text of a number; nothing for any other document.
pub open spec fn number_of(j: JsonValue) -> Option<Seq<char>> {
    match j {
        JsonValue::Number(n) => Some(n),
        _ => None,
    }
}

/// The items of an array; nothing for any other document.
pub open spec fn items_of(j: JsonValue) -> Option<Seq<JsonValue>> {
    match j {
        JsonValue::Array(items) => Some(items),
        _ => None,
    }
}

/// The deepest nesting of arrays and objects that is written: as deep as
/// `serde_json` reads.
pub const MAX_NESTING: usize = 128;

/// Whether arrays and objects are nested in a document at most `budget`
/// deep. A document that is neither is nested 0 deep.
pub open spec fn nested_within(j: JsonValue, budget: nat) -> bool
    decreases budget,
{
    match j {
        JsonValue::Array(items) => budget > 0 && forall|i: int|
            0 <= i < items.len() ==> nested_within(#[trigger] items[i], (budget - 1) as nat),
        JsonValue::Object(entries) => budget > 0 && forall|i: int|
            0 <= i < entries.len() ==> nested_within(
                (#[trigger] entries[i]).value,
                (budget - 1) as nat,
            ),
        _ => true,
    }
}

/// A document is nested within a budget exactly if the budget is not used up
/// and every document in it is nested within one less.
pub proof fn lemma_nested_within(j: JsonValue, budget: nat)
    ensures
        j matches JsonValue::Array(items) ==> (nested_within(j, budget) <==> budget > 0
            && forall|i: int|
            0 <= i < items.len() ==> nested_within(#[trigger] items[i], (budget - 1) as nat)),
        j matches JsonValue::Object(entries) ==> (nested_within(j, budget) <==> budget > 0
            && forall|i: int|
            0 <= i < entries.len() ==> nested_within(
                (#[trigger] entries[i]).value,
                (budget - 1) as nat,
            )),
{
    reveal_with_fuel(nested_within, 2);
}

/// The value behind an optional reference to a document.
pub open spec fn view_of(r: Option<&Json>) -> Option<JsonValue> {
    match r {
        Some(j) => Some(j@),
        None => None,
    }
}

/// The characters behind an optional string slice.
pub open spec fn text_of(r: Option<&str>) -> Option<Seq<char>> {
    match r {
        Some(s) => Some(s@),
        None => None,
    }
}

impl Json {
    /// The first member called `key`, if this is an object that has one.
    pub fn get<'a>(&'a self, key: &str) -> (r: Option<&'a Json>)
        ensures
            view_of(r) == field(self@, key@),
    {
        match self {
            Json::Object(entries) => {
                proof {
                    lemma_object_view(*entries);
                }
                let ghost all = entries_view(entries@);
                let mut i: usize = 0;
                assert(all.skip(0) =~= all);
                while i < entries.len()
                    invariant
                        i <= entries.len(),
                        all == entries_view(entries@),
                        self@ == JsonValue::Object(all),
                        lookup(all, key@) == lookup(all.skip(i as int), key@),
                    decreases entries.len() - i,
                {
                    assert(all.skip(i as int)[0] == all[i as int]);
                    if str_eq(entries[i].name.as_str(), key) {
                        return Some(&entries[i].value);
                    }
                    assert(all.skip(i as int).drop_first() =~= all.skip(i as int + 1));
                    i += 1;
                }
                None
            },
            _ => None,
        }
    }

    /// The text, if this is a string.
    pub fn as_text<'a>(&'a self) -> (r: Option<&'a str>)
        ensures
            text_of(r) == string_of(self@),
    {
        match self {
            Json::String(s) => Some(s.as_str()),
            _ => None,
        }
    }

    /// The text of the number, if this is a number.
    pub fn as_number<'a>(&'a self) -> (r: Option<&'a str>)
        ensures
            text_of(r) == number_of(self@),
    {
        match self {
            Json::Number(n) => Some(n.as_str()),
            _ => None,
        }
    }

    /// The items, if this is an array.
    pub fn as_items<'a>(&'a self) -> (r: Option<&'a Vec<Json>>)
        ensures
            match r {
                Some(items) => items_of(self@) == Some(items_view(items@)),
                None => items_of(self@) is None,
            },
    {
        match self {
            Json::Array(items) => {
                proof {
                    lemma_array_view(*items);
                }
                Some(items)
            },
            _ => None,
        }
    }

    /// Whether arrays and objects are nested in this document at most
    /// `budget` deep.
    pub fn is_nested_within(&self, budget: usize) -> (r: bool)
        ensures
            r == nested_within(self@, budget as nat),
        decreases budget,
    {
        match self {
            Json::Array(items) => {
                proof {
                    lemma_array_view(*items);
                }
                if budget == 0 {
                    return false;
                }
                let ghost values = items_view(items@);
                let mut i: usize = 0;
                while i < items.len()
                    invariant
                        i <= items.len(),
                        budget > 0,
                        values == items_view(items@),
                        self@ == JsonValue::Array(values),
                        forall|k: int|
                            0 <= k < i ==> nested_within(
                                #[trigger] values[k],
                                (budget - 1) as nat,
                            ),
                    decreases items.len() - i,
                {
                    if !items[i].is_nested_within(budget - 1) {
                        proof {
                            lemma_nested_within(self@, budget as nat);
                        }
                        assert(!nested_within(values[i as int], (budget - 1) as nat));
                        return false;
                    }
                    i += 1;
                }
                proof {
                    lemma_nested_within(self@, budget as nat);
                }
                true
            },
            Json::Object(entries) => {
                proof {
                    lemma_object_view(*entries);
                }
                if budget == 0 {
                    return false;
                }
                let ghost values = entries_view(entries@);
                let mut i: usize = 0;
                while i < entries.len()
                    invariant
                        i <= entries.len(),
                        budget > 0,
                        values == entries_view(entries@),
                        self@ == JsonValue::Object(values),
                        forall|k: int|
                            0 <= k < i ==> nested_within(
                                (#[trigger] values[k]).value,
                                (budget - 1) as nat,
                            ),
                    decreases entries.len() - i,
                {
                    if !entries[i].value.is_nested_within(budget - 1) {
                        proof {
                            lemma_nested_within(self@, budget as nat);
                        }
                        assert(!nested_within(values[i as int].value, (budget - 1) as nat));
                        return false;
                    }
                    i += 1;
                }
                proof {
                    lemma_nested_within(self@, budget as nat);
                }
                true
            },
            _ => true,
        }
    }

    /// Whether this is `null`.
    pub fn is_null(&self) -> (r: bool)
        ensures
            r == (self@ is Null),
    {
        match self {
            Json::Null => true,
            _ => false,
        }
    }
}

/// What `serde_json` reads from a text: the document, or nothing where the
/// text is not one JSON document.
pub uninterp spec fn json_of_text(text: Seq<char>) -> Option<JsonValue>;

/// What `serde_json` writes for a document: its text, or nothing where a
/// number in it is not written as JSON writes numbers.
pub uninterp spec fn text_of_json(j: JsonValue) -> Option<Seq<char>>;

/// `serde_json::Value`, the tree that `serde_json` reads into and writes from.
/// Nothing is known of a value of it; it is copied into and out of [`Json`].
#[verifier::external_type_specification]
#[verifier::external_body]
pub struct ExValue(serde_json::Value);

/// Copies a `serde_json::Value` into a [`Json`], variant by variant; a number
/// hands over the text that `serde_json::Number::as_str` gives.
#[verifier::external_body]
fn json_from_value(v: &serde_json::Value) -> Json {
    match v {
        serde_json::Value::Null => Json::Null,
        serde_json::Value::Bool(b) => Json::Bool(*b),
        serde_json::Value::Number(n) => Json::Number(n.as_str().to_string()),
        serde_json::Value::String(s) => Json::String(s.clone()),
        serde_json::Value::Array(a) => Json::Array(a.iter().map(json_from_value).collect()),
        serde_json::Value::Object(o) => Json::Object(
            o.iter().map(|(k, x)| Member { name: k.clone(), value: json_from_value(x) }).collect(),
        ),
    }
}

/// Copies a [`Json`] into a `serde_json::Value`, variant by variant; a number
/// goes through `serde_json::Number::from_str`, which refuses a text that is
/// no JSON number.
#[verifier::external_body]
fn value_from_json(j: &Json) -> Option<serde_json::Value> {
    Some(match j {
        Json::Null => serde_json::Value::Null,
        Json::Bool(b) => serde_json::Value::Bool(*b),
        Json::Number(n) => serde_json::Value::Number(n.parse::<serde_json::Number>().ok()?),
        Json::String(s) => serde_json::Value::String(s.clone()),
        Json::Array(a) => serde_json::Value::Array(
            a.iter().map(value_from_json).collect::<Option<_>>()?,
        ),
        Json::Object(o) => serde_json::Value::Object(
            o.iter().map(|m| Some((m.name.clone(), value_from_json(&m.value)?))).collect::<Option<_>>()?,
        ),
    })
}

/// Calls `serde_json::from_str` for a `serde_json::Value`. The contract names
/// the outcome [`json_of_text`]: the document read, nothing on an error.
#[verifier::external_body]
pub(crate) fn parse_json(text: &str) -> (r: Option<Json>)
    ensures
        match r {
            Some(j) => json_of_text(text@) == Some(j@),
            None => json_of_text(text@) is None,
        },
{
    match serde_json::from_str::<serde_json::Value>(text) {
        Ok(v) => Some(json_from_value(&v)),
        Err(_) => None,
    }
}

/// Calls `serde_json::to_string` on the document. The contract names the
/// outcome [`text_of_json`]: the text written, nothing on an error. A
/// document that is nested deeper than `serde_json` reads is kept out, as
/// writing goes as deep as the document does.
#[verifier::external_body]
pub(crate) fn print_json(j: &Json) -> (r: Option<String>)
    requires
        nested_within(j@, MAX_NESTING as nat),
    ensures
        match r {
            Some(s) => text_of_json(j@) == Some(s@),
            None => text_of_json(j@) is None,
        },
{
    match value_from_json(j) {
        Some(v) => serde_json::to_string(&v).ok(),
        None => None,
    }
}

} // verus!
