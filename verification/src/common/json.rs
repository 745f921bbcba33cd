//! Structured documents, and how JSON text becomes one.

use vstd::prelude::*;
use crate::common::text::same_text;

verus! {

/// A structured document, as far as this library reads one.
#[derive(Debug, PartialEq, Eq)]
pub enum Json {
    Null,
    Bool(bool),
    /// A number that is a whole number from 0 to `u64::MAX`.
    Unsigned(u64),
    /// Any other number: negative, or with a fraction or an exponent.
    Number,
    Text(String),
    Array(Vec<Json>),
    /// The members of an object, in the order in which they are walked.  A
    /// key may occur more than once; the first occurrence is the one found.
    Object(Vec<(String, Json)>),
}

/// The value of the first member of `entries` whose key is `key`.
pub open spec fn lookup(entries: Seq<(String, Json)>, key: Seq<char>) -> Option<Json>
    decreases entries.len(),
{
    if entries.len() == 0 {
        None
    } else if entries[0].0@ == key {
        Some(entries[0].1)
    } else {
        lookup(entries.skip(1), key)
    }
}

#[verifier::external_type_specification]
#[verifier::external_body]
pub struct ExValue(serde_json::Value);

#[verifier::external_type_specification]
#[verifier::external_body]
pub struct ExDecodeError(serde_json::Error);

/// The document that a run of bytes is the JSON text of, if it is the JSON
/// text of any.
pub uninterp spec fn decoded_document(bytes: Seq<u8>) -> Option<Json>;

/// Copies a `serde_json::Value` into a `Json`, variant by variant.  A number
/// goes through `serde_json::Number::as_u64`; the members of an object come
/// in the order in which `serde_json::Map::iter` walks them.
#[verifier::external_body]
pub(crate) fn lift(value: &serde_json::Value) -> (doc: Json) {
    match value {
        serde_json::Value::Null => Json::Null,
        serde_json::Value::Bool(b) => Json::Bool(*b),
        serde_json::Value::Number(n) => n.as_u64().map_or(Json::Number, Json::Unsigned),
        serde_json::Value::String(s) => Json::Text(s.clone()),
        serde_json::Value::Array(items) => Json::Array(items.iter().map(lift).collect()),
        serde_json::Value::Object(map) => Json::Object(
            map.iter().map(|(key, item)| (key.clone(), lift(item))).collect(),
        ),
    }
}

/// `serde_json::from_slice`, read as a `serde_json::Value`.  The contract
/// claims only that the outcome is fixed by the bytes: the same bytes decode
/// to the same document, or fail, every time.
#[verifier::external_body]
fn decode(bytes: &[u8]) -> (outcome: Result<Json, serde_json::Error>)
    ensures
        match outcome {
            Ok(doc) => decoded_document(bytes@) == Some(doc),
            Err(_) => decoded_document(bytes@) is None,
        },
{
    serde_json::from_slice::<serde_json::Value>(bytes).map(|value| lift(&value))
}

impl Json {
    /// Decodes JSON text.  Nothing comes back for bytes that are no JSON
    /// text.
    pub fn from_slice(bytes: &[u8]) -> (doc: Option<Json>)
        ensures
            doc == decoded_document(bytes@),
    {
        match decode(bytes) {
            Ok(doc) => Some(doc),
            Err(_) => None,
        }
    }

    /// The member `key` of an object; nothing for any other value.
    pub open spec fn field(self, key: Seq<char>) -> Option<Json> {
        match self {
            Json::Object(entries) => lookup(entries@, key),
            _ => None,
        }
    }

    /// The text of a string value.
    pub open spec fn text(self) -> Option<Seq<char>> {
        match self {
            Json::Text(s) => Some(s@),
            _ => None,
        }
    }

    /// The value of a number that fits `u64`.
    pub open spec fn unsigned(self) -> Option<u64> {
        match self {
            Json::Unsigned(n) => Some(n),
            _ => None,
        }
    }

    /// The truth value of a boolean.
    pub open spec fn truth(self) -> Option<bool> {
        match self {
            Json::Bool(b) => Some(b),
            _ => None,
        }
    }

    /// The items of an array.
    pub open spec fn items(self) -> Option<Seq<Json>> {
        match self {
            Json::Array(items) => Some(items@),
            _ => None,
        }
    }

    /// The members of an object.
    pub open spec fn members(self) -> Option<Seq<(String, Json)>> {
        match self {
            Json::Object(entries) => Some(entries@),
            _ => None,
        }
    }

    /// The text of member `key`, where that member is a string.
    pub open spec fn text_field(self, key: Seq<char>) -> Option<Seq<char>> {
        match self.field(key) {
            Some(value) => value.text(),
            None => None,
        }
    }

    /// Looks up a member of an object by its key.
    pub fn get(&self, key: &str) -> (found: Option<&Json>)
        ensures
            match found {
                Some(value) => self.field(key@) == Some(*value),
                None => self.field(key@) is None,
            },
    {
        match self {
            Json::Object(entries) => {
                let n: usize = entries.len();
                let mut i: usize = 0;
                assert(entries@.skip(0) =~= entries@);
                while i < n
                    invariant
                        n == entries@.len(),
                        i <= n,
                        lookup(entries@.skip(i as int), key@) == self.field(key@),
                    decreases n - i,
                {
                    assert(entries@.skip(i as int)[0] == entries@[i as int]);
                    if same_text(entries[i].0.as_str(), key) {
                        return Some(&entries[i].1);
                    }
                    assert(entries@.skip(i as int).skip(1) =~= entries@.skip(i + 1));
                    i += 1;
                }
                None
            },
            _ => None,
        }
    }

    /// The text of a string value.
    pub fn as_str(&self) -> (found: Option<&str>)
        ensures
            match found {
                Some(s) => self.text() == Some(s@),
                None => self.text() is None,
            },
    {
        match self {
            Json::Text(s) => Some(s.as_str()),
            _ => None,
        }
    }

    /// The value of a number that fits `u64`.
    pub fn as_u64(&self) -> (found: Option<u64>)
        ensures
            found == self.unsigned(),
    {
        match self {
            Json::Unsigned(n) => Some(*n),
            _ => None,
        }
    }

    /// The truth value of a boolean.
    pub fn as_bool(&self) -> (found: Option<bool>)
        ensures
            found == self.truth(),
    {
        match self {
            Json::Bool(b) => Some(*b),
            _ => None,
        }
    }

    /// The items of an array.
    pub fn as_array(&self) -> (found: Option<&Vec<Json>>)
        ensures
            match found {
                Some(items) => self.items() == Some(items@),
                None => self.items() is None,
            },
    {
        match self {
            Json::Array(items) => Some(items),
            _ => None,
        }
    }

    /// The members of an object.
    pub fn as_object(&self) -> (found: Option<&Vec<(String, Json)>>)
        ensures
            match found {
                Some(entries) => self.members() == Some(entries@),
                None => self.members() is None,
            },
    {
        match self {
            Json::Object(entries) => Some(entries),
            _ => None,
        }
    }

    /// The text of member `key`, where that member is a string.
    pub fn get_str(&self, key: &str) -> (found: Option<&str>)
        ensures
            match found {
                Some(s) => self.text_field(key@) == Some(s@),
                None => self.text_field(key@) is None,
            },
    {
        match self.get(key) {
            Some(value) => value.as_str(),
            None => None,
        }
    }
}

} // verus!
