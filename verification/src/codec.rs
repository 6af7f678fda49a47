//! Reading values out of JSON documents and writing them into JSON
//! documents: the two contracts that every type on the wire meets.

use crate::json::{
    entries_view, field, items_view, string_of, text_of, Json, JsonValue, Member, MemberValue,
};
use crate::text::{decimal_text, parse_u64, u64_of_text, u64_to_string};
use vstd::prelude::*;

verus! {

/// The model of an optional value.
pub open spec fn deep_of<T: DeepView>(r: Option<T>) -> Option<T::V> {
    match r {
        Some(v) => Some(v.deep_view()),
        None => None,
    }
}

/// The value of an optional document.
pub open spec fn json_of(r: Option<Json>) -> Option<JsonValue> {
    match r {
        Some(j) => Some(j@),
        None => None,
    }
}

/// A type that is read from a JSON document.
pub trait FromJson: DeepView + Sized {
    /// The value that a document stands for, or nothing where the document
    /// does not have the shape of this type.
    spec fn decoded(j: JsonValue) -> Option<Self::V>;

    /// Reads a value of this type out of a document.
    fn from_json(j: &Json) -> (r: Option<Self>)
        ensures
            deep_of(r) == Self::decoded(j@),
    ;
}

/// A type that is written as a JSON document.
pub trait ToJson: DeepView {
    /// The document that stands for a value, or nothing where the value has
    /// no form on the wire.
    spec fn encoded(v: Self::V) -> Option<JsonValue>;

    /// Writes this value as a document.
    fn to_json(&self) -> (r: Option<Json>)
        ensures
            json_of(r) == Self::encoded(self.deep_view()),
    ;
}

/// What a required member of an object stands for: nothing where the member
/// is missing or has another shape.
pub open spec fn required<T: FromJson>(j: JsonValue, key: Seq<char>) -> Option<T::V> {
    match field(j, key) {
        Some(v) => T::decoded(v),
        None => None,
    }
}

/// What an optional member of an object stands for. A missing member and
/// `null` both stand for "no value"; a member of another shape is an error,
/// the outer `None`.
pub open spec fn optional<T: FromJson>(j: JsonValue, key: Seq<char>) -> Option<Option<T::V>> {
    match field(j, key) {
        None => Some(None),
        Some(JsonValue::Null) => Some(None),
        Some(v) => match T::decoded(v) {
            Some(x) => Some(Some(x)),
            None => None,
        },
    }
}

/// Reads a required member of an object.
pub fn require<T: FromJson>(j: &Json, key: &str) -> (r: Option<T>)
    ensures
        deep_of(r) == required::<T>(j@, key@),
{
    match j.get(key) {
        Some(v) => T::from_json(v),
        None => None,
    }
}

/// Reads an optional member of an object.
pub fn optionally<T: FromJson>(j: &Json, key: &str) -> (r: Option<Option<T>>)
    ensures
        match r {
            Some(v) => optional::<T>(j@, key@) == Some(deep_of(v)),
            None => optional::<T>(j@, key@) is None,
        },
{
    match j.get(key) {
        None => Some(None),
        Some(v) => {
            if v.is_null() {
                Some(None)
            } else {
                match T::from_json(v) {
                    Some(x) => Some(Some(x)),
                    None => None,
                }
            }
        },
    }
}

impl FromJson for u64 {
    open spec fn decoded(j: JsonValue) -> Option<u64> {
        match j {
            JsonValue::Number(n) => u64_of_text(n),
            _ => None,
        }
    }

    fn from_json(j: &Json) -> (r: Option<u64>) {
        match j.as_number() {
            Some(n) => parse_u64(n),
            None => None,
        }
    }
}

impl ToJson for u64 {
    open spec fn encoded(v: u64) -> Option<JsonValue> {
        Some(JsonValue::Number(decimal_text(v as nat)))
    }

    fn to_json(&self) -> (r: Option<Json>) {
        Some(Json::Number(u64_to_string(*self)))
    }
}

impl FromJson for String {
    open spec fn decoded(j: JsonValue) -> Option<Seq<char>> {
        string_of(j)
    }

    fn from_json(j: &Json) -> (r: Option<String>) {
        match j {
            Json::String(s) => Some(s.clone()),
            _ => None,
        }
    }
}

impl ToJson for String {
    open spec fn encoded(v: Seq<char>) -> Option<JsonValue> {
        Some(JsonValue::String(v))
    }

    fn to_json(&self) -> (r: Option<Json>) {
        Some(Json::String(self.clone()))
    }
}

/// `null` stands for "no value"; any other document stands for what it
/// stands for in `T`.
impl<T: FromJson> FromJson for Option<T> {
    open spec fn decoded(j: JsonValue) -> Option<Option<T::V>> {
        match j {
            JsonValue::Null => Some(None),
            _ => match T::decoded(j) {
                Some(x) => Some(Some(x)),
                None => None,
            },
        }
    }

    fn from_json(j: &Json) -> (r: Option<Option<T>>) {
        if j.is_null() {
            Some(None)
        } else {
            match T::from_json(j) {
                Some(x) => Some(Some(x)),
                None => None,
            }
        }
    }
}

/// What a list of documents stands for, item by item: nothing where one of
/// them does not have the shape of `T`.
pub open spec fn decoded_items<T: FromJson>(items: Seq<JsonValue>) -> Option<Seq<T::V>> {
    if forall|i: int| 0 <= i < items.len() ==> (#[trigger] T::decoded(items[i])) is Some {
        Some(Seq::new(items.len(), |i: int| T::decoded(items[i])->0))
    } else {
        None
    }
}

/// An array stands for the list of what its items stand for.
impl<T: FromJson> FromJson for Vec<T> {
    open spec fn decoded(j: JsonValue) -> Option<Seq<T::V>> {
        match j {
            JsonValue::Array(items) => decoded_items::<T>(items),
            _ => None,
        }
    }

    fn from_json(j: &Json) -> (r: Option<Vec<T>>) {
        match j.as_items() {
            None => None,
            Some(items) => {
                let ghost values = items_view(items@);
                let mut out: Vec<T> = Vec::new();
                let mut i: usize = 0;
                while i < items.len()
                    invariant
                        i <= items.len(),
                        values == items_view(items@),
                        j@ == JsonValue::Array(values),
                        out.len() == i,
                        forall|k: int|
                            0 <= k < i ==> T::decoded(values[k]) == Some(
                                #[trigger] out@[k].deep_view(),
                            ),
                    decreases items.len() - i,
                {
                    match T::from_json(&items[i]) {
                        Some(x) => {
                            out.push(x);
                        },
                        None => {
                            assert(T::decoded(values[i as int]) is None);
                            return None;
                        },
                    }
                    i += 1;
                }
                proof {
                    assert forall|k: int| 0 <= k < values.len() implies (#[trigger] T::decoded(
                        values[k],
                    )) is Some by {
                        assert(T::decoded(values[k]) == Some(out@[k].deep_view()));
                    }
                    let want = decoded_items::<T>(values)->0;
                    let have = out.deep_view();
                    assert(have.len() == want.len());
                    assert forall|k: int| 0 <= k < have.len() implies have[k] == want[k] by {
                        assert(T::decoded(values[k]) == Some(out@[k].deep_view()));
                    }
                    assert(have =~= want);
                }
                Some(out)
            },
        }
    }
}

/// The text of the string member `key` of an object: the name of the variant,
/// where a value that is one of several variants says which.
pub open spec fn tag_of(j: JsonValue, key: Seq<char>) -> Option<Seq<char>> {
    match field(j, key) {
        Some(v) => string_of(v),
        None => None,
    }
}

/// Reads the string member `key` of an object.
pub fn tag<'a>(j: &'a Json, key: &str) -> (r: Option<&'a str>)
    ensures
        text_of(r) == tag_of(j@, key@),
{
    match j.get(key) {
        Some(v) => v.as_text(),
        None => None,
    }
}

/// Puts the member `name` behind the members in `out`.
pub fn put(out: &mut Vec<Member>, name: &str, value: Json)
    ensures
        entries_view(final(out)@) == entries_view(old(out)@).push(
            MemberValue { name: name@, value: value@ },
        ),
{
    let ghost before = entries_view(out@);
    out.push(Member { name: crate::error::owned(name), value });
    assert(entries_view(out@) =~= before.push(MemberValue { name: name@, value: value@ }));
}

/// The members that an optional value writes: one member, or none where
/// there is no value. Nothing where the value has no form on the wire.
pub open spec fn optional_member<T: ToJson>(name: Seq<char>, value: Option<T::V>) -> Option<
    Seq<MemberValue>,
> {
    match value {
        None => Some(Seq::empty()),
        Some(v) => match T::encoded(v) {
            Some(j) => Some(seq![MemberValue { name, value: j }]),
            None => None,
        },
    }
}

/// The member that a value writes. Nothing where the value has no form on
/// the wire.
pub open spec fn member_of<T: ToJson>(name: Seq<char>, value: T::V) -> Option<Seq<MemberValue>> {
    match T::encoded(value) {
        Some(j) => Some(seq![MemberValue { name, value: j }]),
        None => None,
    }
}

/// Puts the member `name` of a value behind the members in `out`. Gives
/// `false`, and leaves `out` as it is, where the value has no form on the
/// wire.
pub fn put_value<T: ToJson>(out: &mut Vec<Member>, name: &str, value: &T) -> (done: bool)
    ensures
        match member_of::<T>(name@, value.deep_view()) {
            Some(members) => done && entries_view(final(out)@) == entries_view(old(out)@)
                + members,
            None => !done && final(out)@ == old(out)@,
        },
{
    match value.to_json() {
        Some(j) => {
            let ghost before = entries_view(out@);
            put(out, name, j);
            assert(entries_view(out@) =~= before + member_of::<T>(name@, value.deep_view())->0);
            true
        },
        None => false,
    }
}

/// Puts the member `name` of an optional value behind the members in `out`,
/// if there is a value. Gives `false`, and leaves `out` as it is, where the
/// value has no form on the wire.
pub fn put_optional<T: ToJson>(out: &mut Vec<Member>, name: &str, value: &Option<T>) -> (done:
    bool)
    ensures
        match optional_member::<T>(name@, deep_of(*value)) {
            Some(members) => done && entries_view(final(out)@) == entries_view(old(out)@)
                + members,
            None => !done && final(out)@ == old(out)@,
        },
{
    match value {
        None => {
            assert(entries_view(out@) =~= entries_view(out@) + Seq::<MemberValue>::empty());
            true
        },
        Some(v) => put_value(out, name, v),
    }
}

/// The object of the members in `out`.
pub fn object(out: Vec<Member>) -> (j: Json)
    ensures
        j@ == JsonValue::Object(entries_view(out@)),
{
    proof {
        crate::json::lemma_object_view(out);
    }
    Json::Object(out)
}

/// The members of two parts of an object, one behind the other. Nothing
/// where either part has no form on the wire.
pub open spec fn join(a: Option<Seq<MemberValue>>, b: Option<Seq<MemberValue>>) -> Option<
    Seq<MemberValue>,
> {
    match (a, b) {
        (Some(x), Some(y)) => Some(x + y),
        _ => None,
    }
}

/// The member that holds the name of a variant.
pub open spec fn tag_member(key: Seq<char>, name: Seq<char>) -> Option<Seq<MemberValue>> {
    Some(seq![MemberValue { name: key, value: JsonValue::String(name) }])
}

/// The member that holds the name of a variant, as the first member of an
/// object.
pub fn tagged(key: &str, name: &str) -> (out: Vec<Member>)
    ensures
        tag_member(key@, name@) == Some(entries_view(out@)),
{
    let mut out: Vec<Member> = Vec::new();
    put(&mut out, key, Json::String(crate::error::owned(name)));
    assert(entries_view(out@) =~= tag_member(key@, name@)->0);
    out
}

/// The member of a value, as the first member of an object. Nothing where
/// the value has no form on the wire.
pub fn first_member<T: ToJson>(name: &str, value: &T) -> (r: Option<Vec<Member>>)
    ensures
        members_of(r) == member_of::<T>(name@, value.deep_view()),
{
    match value.to_json() {
        Some(j) => {
            let mut out: Vec<Member> = Vec::new();
            put(&mut out, name, j);
            assert(entries_view(out@) =~= member_of::<T>(name@, value.deep_view())->0);
            Some(out)
        },
        None => None,
    }
}

/// The model of a list of members that may have failed to be written.
pub open spec fn members_of(r: Option<Vec<Member>>) -> Option<Seq<MemberValue>> {
    match r {
        Some(out) => Some(entries_view(out@)),
        None => None,
    }
}

/// The documents that a list of values writes, item by item: nothing where
/// one of them has no form on the wire.
pub open spec fn encoded_items<T: ToJson>(items: Seq<T::V>) -> Option<Seq<JsonValue>> {
    if forall|i: int| 0 <= i < items.len() ==> (#[trigger] T::encoded(items[i])) is Some {
        Some(Seq::new(items.len(), |i: int| T::encoded(items[i])->0))
    } else {
        None
    }
}

/// A list is written as the array of what its items are written as.
impl<T: ToJson> ToJson for Vec<T> {
    open spec fn encoded(v: Seq<T::V>) -> Option<JsonValue> {
        match encoded_items::<T>(v) {
            Some(items) => Some(JsonValue::Array(items)),
            None => None,
        }
    }

    fn to_json(&self) -> (r: Option<Json>) {
        let ghost values = self.deep_view();
        let mut out: Vec<Json> = Vec::new();
        let mut i: usize = 0;
        while i < self.len()
            invariant
                i <= self.len(),
                values == self.deep_view(),
                out.len() == i,
                forall|k: int| 0 <= k < i ==> T::encoded(values[k]) == Some(#[trigger] out@[k]@),
            decreases self.len() - i,
        {
            assert(values[i as int] == self@[i as int].deep_view());
            match self[i].to_json() {
                Some(x) => {
                    out.push(x);
                },
                None => {
                    assert(T::encoded(values[i as int]) is None);
                    return None;
                },
            }
            i += 1;
        }
        proof {
            assert forall|k: int| 0 <= k < values.len() implies (#[trigger] T::encoded(
                values[k],
            )) is Some by {
                assert(T::encoded(values[k]) == Some(out@[k]@));
            }
            let want = encoded_items::<T>(values)->0;
            let have = items_view(out@);
            assert forall|k: int| 0 <= k < have.len() implies have[k] == want[k] by {
                assert(T::encoded(values[k]) == Some(out@[k]@));
            }
            assert(have =~= want);
            crate::json::lemma_array_view(out);
        }
        Some(Json::Array(out))
    }
}

} // verus!
