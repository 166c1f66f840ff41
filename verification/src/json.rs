//! JSON documents as trees of plain values, and their text form.

use crate::text::str_eq;
use serde_json::{Number, Value};
use vstd::prelude::*;

verus! {

/// A JSON document.
///
/// Integers are held exactly; a number that is not an integer is held as its
/// decimal text. An object keeps its entries in document order.
#[derive(Debug, PartialEq, Eq)]
pub enum Json {
    Null,
    Bool(bool),
    Int(i128),
    Real(String),
    Text(String),
    Array(Vec<Json>),
    Object(Vec<(String, Json)>),
}

/// The mathematical value of a [`Json`] document.
pub enum JsonValue {
    Null,
    Bool(bool),
    Int(int),
    Real(Seq<char>),
    Text(Seq<char>),
    Array(Seq<JsonValue>),
    Object(Seq<(Seq<char>, JsonValue)>),
}

impl View for Json {
    type V = JsonValue;

    open spec fn view(&self) -> JsonValue
        decreases self,
    {
        match self {
            Json::Null => JsonValue::Null,
            Json::Bool(b) => JsonValue::Bool(*b),
            Json::Int(i) => JsonValue::Int(*i as int),
            Json::Real(digits) => JsonValue::Real(digits@),
            Json::Text(s) => JsonValue::Text(s@),
            Json::Array(items) => JsonValue::Array(
                Seq::new(
                    items@.len(),
                    |i: int| if 0 <= i < items@.len() { items@[i]@ } else { JsonValue::Null },
                ),
            ),
            Json::Object(entries) => JsonValue::Object(
                Seq::new(
                    entries@.len(),
                    |i: int|
                        (
                            entries@[i].0@,
                            if 0 <= i < entries@.len() {
                                entries@[i].1@
                            } else {
                                JsonValue::Null
                            },
                        ),
                ),
            ),
        }
    }
}

/// The values of the items of an array.
pub open spec fn item_values(items: Seq<Json>) -> Seq<JsonValue> {
    Seq::new(items.len(), |i: int| items[i]@)
}

/// The keys and values of the entries of an object.
pub open spec fn entry_values(entries: Seq<(String, Json)>) -> Seq<(Seq<char>, JsonValue)> {
    Seq::new(entries.len(), |i: int| (entries[i].0@, entries[i].1@))
}

/// The value of the first entry under `key`, if there is one.
pub open spec fn lookup(entries: Seq<(Seq<char>, JsonValue)>, key: Seq<char>) -> Option<JsonValue>
    decreases entries.len(),
{
    if entries.len() == 0 {
        None
    } else {
        match lookup(entries.drop_last(), key) {
            Some(value) => Some(value),
            None => if entries.last().0 == key {
                Some(entries.last().1)
            } else {
                None
            },
        }
    }
}

impl JsonValue {
    /// The value under `key` where this is an object that has the key.
    pub open spec fn field(self, key: Seq<char>) -> Option<JsonValue> {
        match self {
            JsonValue::Object(entries) => lookup(entries, key),
            _ => None,
        }
    }

    /// The integer where this is one within `low..=high`.
    pub open spec fn int_within(self, low: int, high: int) -> Option<int> {
        match self {
            JsonValue::Int(i) if low <= i <= high => Some(i),
            _ => None,
        }
    }

    /// The characters where this is a string.
    pub open spec fn text(self) -> Option<Seq<char>> {
        match self {
            JsonValue::Text(s) => Some(s),
            _ => None,
        }
    }

    /// The truth value where this is one.
    pub open spec fn boolean(self) -> Option<bool> {
        match self {
            JsonValue::Bool(b) => Some(b),
            _ => None,
        }
    }

    /// The items where this is an array.
    pub open spec fn items(self) -> Option<Seq<JsonValue>> {
        match self {
            JsonValue::Array(items) => Some(items),
            _ => None,
        }
    }

    /// Whether the JSON library can hold this document as it is: every
    /// integer lies between the least `i64` and the greatest `u64`, every
    /// other number is the text that the parser reads as that number, and no
    /// object has two entries under one key.
    pub open spec fn representable(self) -> bool
        decreases self,
    {
        match self {
            JsonValue::Int(i) => i64::MIN <= i <= u64::MAX,
            JsonValue::Real(digits) => parsed(digits) == Ok::<JsonValue, Seq<char>>(
                JsonValue::Real(digits),
            ),
            JsonValue::Array(items) => forall|k: int|
                0 <= k < items.len() ==> (#[trigger] items[k]).representable(),
            JsonValue::Object(entries) => {
                &&& forall|k: int|
                    0 <= k < entries.len() ==> (#[trigger] entries[k]).1.representable()
                &&& forall|i: int, j: int|
                    0 <= i < j < entries.len() ==> (#[trigger] entries[i]).0 != (
                    #[trigger] entries[j]).0
            },
            _ => true,
        }
    }
}

/// The view of an optional borrowed document.
pub open spec fn value_of(found: Option<&Json>) -> Option<JsonValue> {
    match found {
        Some(json) => Some(json@),
        None => None,
    }
}

pub proof fn lemma_array_view(items: Vec<Json>)
    ensures
        Json::Array(items)@ == JsonValue::Array(item_values(items@)),
{
    assert(Json::Array(items)@->Array_0 =~= item_values(items@));
}

pub proof fn lemma_object_view(entries: Vec<(String, Json)>)
    ensures
        Json::Object(entries)@ == JsonValue::Object(entry_values(entries@)),
{
    assert(Json::Object(entries)@->Object_0 =~= entry_values(entries@));
}

/// A key that no entry before `at` carries and the entry at `at` does is found
/// there.
pub proof fn lemma_lookup_first(entries: Seq<(Seq<char>, JsonValue)>, at: int, key: Seq<char>)
    requires
        0 <= at < entries.len(),
        lookup(entries.take(at), key) is None,
        entries[at].0 == key,
    ensures
        lookup(entries, key) == Some(entries[at].1),
    decreases entries.len(),
{
    if at == entries.len() - 1 {
        assert(entries.drop_last() =~= entries.take(at));
    } else {
        assert(entries.drop_last().take(at) =~= entries.take(at));
        lemma_lookup_first(entries.drop_last(), at, key);
    }
}

impl Json {
    /// The value of the first entry under `key`, where this is an object that
    /// has one.
    pub fn get(&self, key: &str) -> (found: Option<&Json>)
        ensures
            value_of(found) == self@.field(key@),
    {
        match self {
            Json::Object(entries) => {
                proof {
                    lemma_object_view(*entries);
                }
                let ghost all = entry_values(entries@);
                let mut i: usize = 0;
                while i < entries.len()
                    invariant
                        i <= entries.len(),
                        *self == Json::Object(*entries),
                        all == entry_values(entries@),
                        lookup(all.take(i as int), key@) is None,
                    decreases entries.len() - i,
                {
                    if str_eq(entries[i].0.as_str(), key) {
                        proof {
                            lemma_object_view(*entries);
                            lemma_lookup_first(all, i as int, key@);
                        }
                        return Some(&entries[i].1);
                    }
                    proof {
                        assert(all.take(i as int + 1).drop_last() =~= all.take(i as int));
                    }
                    i += 1;
                }
                proof {
                    lemma_object_view(*entries);
                    assert(all.take(entries.len() as int) =~= all);
                }
                None
            },
            _ => None,
        }
    }

    /// The integer, where this is one that fits in a `u64`.
    pub fn as_u64(&self) -> (n: Option<u64>)
        ensures
            match n {
                Some(n) => self@.int_within(0, u64::MAX as int) == Some(n as int),
                None => self@.int_within(0, u64::MAX as int) is None,
            },
    {
        match self {
            Json::Int(i) => if 0 <= *i && *i <= u64::MAX as i128 {
                Some(*i as u64)
            } else {
                None
            },
            _ => None,
        }
    }

    /// The integer, where this is one that fits in an `i64`.
    pub fn as_i64(&self) -> (n: Option<i64>)
        ensures
            match n {
                Some(n) => self@.int_within(i64::MIN as int, i64::MAX as int) == Some(n as int),
                None => self@.int_within(i64::MIN as int, i64::MAX as int) is None,
            },
    {
        match self {
            Json::Int(i) => if i64::MIN as i128 <= *i && *i <= i64::MAX as i128 {
                Some(*i as i64)
            } else {
                None
            },
            _ => None,
        }
    }

    /// The integer, where this is one that fits in an `i32`.
    pub fn as_i32(&self) -> (n: Option<i32>)
        ensures
            match n {
                Some(n) => self@.int_within(i32::MIN as int, i32::MAX as int) == Some(n as int),
                None => self@.int_within(i32::MIN as int, i32::MAX as int) is None,
            },
    {
        match self {
            Json::Int(i) => if i32::MIN as i128 <= *i && *i <= i32::MAX as i128 {
                Some(*i as i32)
            } else {
                None
            },
            _ => None,
        }
    }

    /// The integer, where this is one that fits in a `u16`.
    pub fn as_u16(&self) -> (n: Option<u16>)
        ensures
            match n {
                Some(n) => self@.int_within(0, u16::MAX as int) == Some(n as int),
                None => self@.int_within(0, u16::MAX as int) is None,
            },
    {
        match self {
            Json::Int(i) => if 0 <= *i && *i <= u16::MAX as i128 {
                Some(*i as u16)
            } else {
                None
            },
            _ => None,
        }
    }

    /// The characters, where this is a string.
    pub fn as_str(&self) -> (s: Option<&str>)
        ensures
            match s {
                Some(s) => self@.text() == Some(s@),
                None => self@.text() is None,
            },
    {
        match self {
            Json::Text(s) => Some(s.as_str()),
            _ => None,
        }
    }

    /// The truth value, where this is one.
    pub fn as_bool(&self) -> (b: Option<bool>)
        ensures
            b == self@.boolean(),
    {
        match self {
            Json::Bool(b) => Some(*b),
            _ => None,
        }
    }

    /// The items, where this is an array.
    pub fn as_array(&self) -> (items: Option<&Vec<Json>>)
        ensures
            match items {
                Some(items) => self@.items() == Some(item_values(items@)),
                None => self@.items() is None,
            },
    {
        match self {
            Json::Array(items) => {
                proof {
                    lemma_array_view(*items);
                }
                Some(items)
            },
            _ => None,
        }
    }

    /// Whether this is `null`.
    pub fn is_null(&self) -> (null: bool)
        ensures
            null == (self@ == JsonValue::Null),
    {
        match self {
            Json::Null => true,
            _ => false,
        }
    }

    /// A string.
    pub fn text(s: &str) -> (json: Json)
        ensures
            json@ == JsonValue::Text(s@),
    {
        Json::Text(s.to_owned())
    }

    /// An integer.
    pub fn unsigned(n: u64) -> (json: Json)
        ensures
            json@ == JsonValue::Int(n as int),
    {
        Json::Int(n as i128)
    }

    /// An integer.
    pub fn signed(n: i64) -> (json: Json)
        ensures
            json@ == JsonValue::Int(n as int),
    {
        Json::Int(n as i128)
    }

    /// An object of the given entries, in their order.
    pub fn object(entries: Vec<(String, Json)>) -> (json: Json)
        ensures
            json@ == JsonValue::Object(entry_values(entries@)),
    {
        proof {
            lemma_object_view(entries);
        }
        Json::Object(entries)
    }

    /// An array of the given items.
    pub fn array(items: Vec<Json>) -> (json: Json)
        ensures
            json@ == JsonValue::Array(item_values(items@)),
    {
        proof {
            lemma_array_view(items);
        }
        Json::Array(items)
    }
}

/// Appends the entry `key: value` to the entries of an object under
/// construction.
pub fn push_entry(entries: &mut Vec<(String, Json)>, key: &str, value: Json)
    ensures
        entry_values(final(entries)@) == entry_values(old(entries)@).push((key@, value@)),
{
    entries.push((key.to_owned(), value));
    assert(entry_values(entries@) =~= entry_values(old(entries)@).push((key@, value@)));
}

impl Clone for Json {
    #[verifier::loop_isolation(false)]
    fn clone(&self) -> (copy: Json)
        ensures
            copy@ == self@,
        decreases self,
    {
        match self {
            Json::Null => Json::Null,
            Json::Bool(b) => Json::Bool(*b),
            Json::Int(i) => Json::Int(*i),
            Json::Real(digits) => Json::Real(digits.clone()),
            Json::Text(s) => Json::Text(s.clone()),
            Json::Array(items) => {
                let mut copies: Vec<Json> = Vec::new();
                let mut i: usize = 0;
                while i < items.len()
                    invariant
                        i <= items.len(),
                        *self == Json::Array(*items),
                        copies@.len() == i,
                        forall|k: int| 0 <= k < i ==> copies@[k]@ == items@[k]@,
                    decreases items.len() - i,
                {
                    copies.push(items[i].clone());
                    i += 1;
                }
                proof {
                    lemma_array_view(*items);
                    lemma_array_view(copies);
                    assert(item_values(copies@) =~= item_values(items@));
                }
                Json::Array(copies)
            },
            Json::Object(entries) => {
                let mut copies: Vec<(String, Json)> = Vec::new();
                let mut i: usize = 0;
                while i < entries.len()
                    invariant
                        i <= entries.len(),
                        *self == Json::Object(*entries),
                        copies@.len() == i,
                        forall|k: int|
                            0 <= k < i ==> copies@[k].0@ == entries@[k].0@ && copies@[k].1@
                                == entries@[k].1@,
                    decreases entries.len() - i,
                {
                    copies.push((entries[i].0.clone(), entries[i].1.clone()));
                    i += 1;
                }
                proof {
                    lemma_object_view(*entries);
                    lemma_object_view(copies);
                    assert(entry_values(copies@) =~= entry_values(entries@));
                }
                Json::Object(copies)
            },
        }
    }
}

/// `serde_json::Value`, of which the verifier sees nothing: it passes between
/// the parser or the printer and the conversions below.
#[verifier::external_type_specification]
#[verifier::external_body]
pub struct ExValue(Value);

/// The document that `serde_json::from_str` reads from a text, or the text
/// of the error that it reports.
pub uninterp spec fn parsed(text: Seq<char>) -> Result<JsonValue, Seq<char>>;

/// The compact text that stands for a document: what the `Display` of
/// `serde_json::Value` writes for the value that the document becomes.
///
/// A document that is [`representable`] becomes a value variant by variant,
/// through `serde_json::Number::from_i128`, `serde_json::from_str` at
/// `serde_json::Number` and the `FromIterator` of `serde_json::Map`. Of a
/// document that is not, an integer out of range and a number that no text
/// stands for become `null`, and of two entries under one key the later
/// value stays, in the place of the earlier.
///
/// [`representable`]: JsonValue::representable
pub uninterp spec fn printed(value: JsonValue) -> Seq<char>;

/// A `serde_json::Value` as a [`Json`] tree, variant by variant. Of a number,
/// `Number::as_i128` gives the integer; one that is none keeps the text that
/// `Number` displays.
#[verifier::external_body]
fn lift(value: Value) -> Json {
    match value {
        Value::Null => Json::Null,
        Value::Bool(b) => Json::Bool(b),
        Value::Number(n) => match n.as_i128() {
            Some(i) => Json::Int(i),
            None => Json::Real(n.to_string()),
        },
        Value::String(s) => Json::Text(s),
        Value::Array(a) => Json::Array(a.into_iter().map(lift).collect()),
        Value::Object(m) => Json::Object(m.into_iter().map(|(k, v)| (k, lift(v))).collect()),
    }
}

/// A [`Json`] tree as a `serde_json::Value`, variant by variant. A number
/// that `serde_json::Number` cannot hold becomes `null`; of two entries of an
/// object under one key, `serde_json::Map` keeps the later value.
#[verifier::external_body]
fn lower(json: &Json) -> Value {
    match json {
        Json::Null => Value::Null,
        Json::Bool(b) => Value::Bool(*b),
        Json::Int(i) => Number::from_i128(*i).map_or(Value::Null, Value::Number),
        Json::Real(d) => serde_json::from_str::<Number>(d).map_or(Value::Null, Value::Number),
        Json::Text(s) => Value::String(s.clone()),
        Json::Array(a) => Value::Array(a.iter().map(lower).collect()),
        Json::Object(m) => Value::Object(m.iter().map(|(k, v)| (k.clone(), lower(v))).collect()),
    }
}

/// What reading a document gave, as mathematical values.
pub open spec fn reading(r: Result<Json, String>) -> Result<JsonValue, Seq<char>> {
    match r {
        Ok(json) => Ok(json@),
        Err(reason) => Err(reason@),
    }
}

/// `serde_json::from_str` at type `serde_json::Value`: the document that the
/// text holds, or the error that says why it holds none, as displayed. The
/// result is a function of the text alone.
#[verifier::external_body]
fn parse_text(text: &str) -> (r: Result<Json, String>)
    ensures
        reading(r) == parsed(text@),
{
    match serde_json::from_str::<Value>(text) {
        Ok(value) => Ok(lift(value)),
        Err(e) => Err(e.to_string()),
    }
}

/// The `Display` of `serde_json::Value`, as `to_string` calls it: the
/// compact text of the document. The result is a function of the document
/// alone.
#[verifier::external_body]
fn print_text(json: &Json) -> (text: String)
    ensures
        text@ == printed(json@),
{
    lower(json).to_string()
}

impl Json {
    /// Reads a document from its text.
    ///
    /// Fails with the parser's reason exactly on the texts that hold no
    /// document.
    pub fn parse(text: &str) -> (r: Result<Json, String>)
        ensures
            reading(r) == parsed(text@),
    {
        parse_text(text)
    }

    /// The compact text of this document. A document that is not
    /// [`representable`] is written as the document that the JSON library
    /// holds in its place.
    ///
    /// [`representable`]: JsonValue::representable
    pub fn print(&self) -> (text: String)
        ensures
            text@ == printed(self@),
    {
        print_text(self)
    }

    /// Whether the JSON library can hold this document as it is.
    #[verifier::loop_isolation(false)]
    pub fn is_representable(&self) -> (ok: bool)
        ensures
            ok == self@.representable(),
        decreases self,
    {
        match self {
            Json::Null => true,
            Json::Bool(_) => true,
            Json::Text(_) => true,
            Json::Int(i) => i64::MIN as i128 <= *i && *i <= u64::MAX as i128,
            Json::Real(digits) => match Json::parse(digits.as_str()) {
                Ok(Json::Real(read)) => str_eq(read.as_str(), digits.as_str()),
                Ok(_) => false,
                Err(_) => false,
            },
            Json::Array(items) => {
                proof {
                    lemma_array_view(*items);
                }
                let mut i: usize = 0;
                while i < items.len()
                    invariant
                        i <= items.len(),
                        *self == Json::Array(*items),
                        forall|k: int| 0 <= k < i ==> (#[trigger] item_values(items@)[k]).representable(),
                    decreases items.len() - i,
                {
                    if !items[i].is_representable() {
                        proof {
                            assert(self@ == JsonValue::Array(item_values(items@)));
                            assert(item_values(items@)[i as int] == items@[i as int]@);
                            assert(!self@->Array_0[i as int].representable());
                        }
                        return false;
                    }
                    assert(item_values(items@)[i as int] == items@[i as int]@);
                    i += 1;
                }
                proof {
                    assert(self@ == JsonValue::Array(item_values(items@)));
                }
                true
            },
            Json::Object(entries) => {
                proof {
                    lemma_object_view(*entries);
                }
                let ghost all = entry_values(entries@);
                let mut i: usize = 0;
                while i < entries.len()
                    invariant
                        i <= entries.len(),
                        *self == Json::Object(*entries),
                        all == entry_values(entries@),
                        forall|k: int| 0 <= k < i ==> (#[trigger] all[k]).1.representable(),
                        forall|a: int, b: int|
                            0 <= a < b < i ==> (#[trigger] all[a]).0 != (#[trigger] all[b]).0,
                    decreases entries.len() - i,
                {
                    if !entries[i].1.is_representable() {
                        proof {
                            assert(self@ == JsonValue::Object(all));
                            assert(all[i as int].1 == entries@[i as int].1@);
                            assert(!self@->Object_0[i as int].1.representable());
                        }
                        return false;
                    }
                    assert(all[i as int].1 == entries@[i as int].1@);
                    let mut j: usize = 0;
                    while j < i
                        invariant
                            j <= i,
                            i < entries.len(),
                            *self == Json::Object(*entries),
                            all == entry_values(entries@),
                            forall|a: int| 0 <= a < j ==> (#[trigger] all[a]).0 != all[i as int].0,
                        decreases i - j,
                    {
                        if str_eq(entries[j].0.as_str(), entries[i].0.as_str()) {
                            proof {
                                assert(self@ == JsonValue::Object(all));
                                assert(all[j as int].0 == all[i as int].0);
                                assert(self@->Object_0[j as int].0 == self@->Object_0[i as int].0);
                            }
                            return false;
                        }
                        j += 1;
                    }
                    i += 1;
                }
                proof {
                    assert(self@ == JsonValue::Object(all));
                }
                true
            },
        }
    }
}

} // verus!
