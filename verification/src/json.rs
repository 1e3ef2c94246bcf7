//! The documents that the remote services answer with.

use vstd::prelude::*;

verus! {

/// A document as the pipeline reads it: text, lists and named fields.
///
/// The fields of an object are kept as a list, in the order the parser gives
/// them; a field is found by the first entry that bears its name.
#[derive(Debug, PartialEq, Eq)]
pub enum Json {
    Null,
    Bool(bool),
    /// A number. Its value is not kept: nothing here reads one.
    Number,
    Text(String),
    Array(Vec<Json>),
    Object(Vec<(String, Json)>),
}

#[verifier::external_type_specification]
#[verifier::external_body]
pub struct ExValue(serde_json::Value);

/// The document that `serde_json::from_str` reads from a text, or `None`
/// where it rejects the text.
pub uninterp spec fn json_document(text: Seq<char>) -> Option<Json>;

/// Copies a `serde_json::Value` into a [`Json`], variant by variant: the
/// items of an array in their order, the fields of an object in the order in
/// which the map hands them out.
#[verifier::external_body]
fn json_of_value(value: serde_json::Value) -> Json {
    match value {
        serde_json::Value::Null => Json::Null,
        serde_json::Value::Bool(b) => Json::Bool(b),
        serde_json::Value::Number(_) => Json::Number,
        serde_json::Value::String(s) => Json::Text(s),
        serde_json::Value::Array(items) => Json::Array(items.into_iter().map(json_of_value).collect()),
        serde_json::Value::Object(fields) => Json::Object(
            fields.into_iter().map(|(name, value)| (name, json_of_value(value))).collect(),
        ),
    }
}

/// Reads a document from its text.
///
/// Calls `serde_json::from_str` for a `serde_json::Value`. What it reads is
/// a function of the text alone; a text that is no JSON gives `None`.
#[verifier::external_body]
fn read_document(text: &str) -> (doc: Option<Json>)
    ensures
        doc == json_document(text@),
{
    match serde_json::from_str::<serde_json::Value>(text) {
        Ok(value) => Some(json_of_value(value)),
        Err(_) => None,
    }
}

/// The value of the first field named `key` among `fields`.
pub open spec fn lookup(fields: Seq<(String, Json)>, key: Seq<char>) -> Option<Json>
    decreases fields.len(),
{
    if fields.len() == 0 {
        None
    } else if fields[0].0@ == key {
        Some(fields[0].1)
    } else {
        lookup(fields.drop_first(), key)
    }
}

impl Json {
    /// The field `key` of an object; `None` for anything else and for an
    /// object without that field.
    pub open spec fn field(self, key: Seq<char>) -> Option<Json> {
        match self {
            Json::Object(fields) => lookup(fields@, key),
            _ => None,
        }
    }

    /// The items of an array; `None` for anything else.
    pub open spec fn items(self) -> Option<Seq<Json>> {
        match self {
            Json::Array(items) => Some(items@),
            _ => None,
        }
    }

    /// The characters of a text; `None` for anything else.
    pub open spec fn text(self) -> Option<Seq<char>> {
        match self {
            Json::Text(s) => Some(s@),
            _ => None,
        }
    }

    /// The text in the field `key` of an object; `None` where that field is
    /// missing or holds no text.
    pub open spec fn text_field(self, key: Seq<char>) -> Option<Seq<char>> {
        match self.field(key) {
            Some(value) => value.text(),
            None => None,
        }
    }

    /// Reads a document from its text; `None` where the text is no JSON.
    pub fn parse(text: &str) -> (doc: Option<Json>)
        ensures
            doc == json_document(text@),
    {
        read_document(text)
    }

    /// The field `key` of an object.
    pub fn member(&self, key: &str) -> (value: Option<&Json>)
        ensures
            match value {
                Some(v) => self.field(key@) == Some(*v),
                None => self.field(key@) is None,
            },
    {
        match self {
            Json::Object(fields) => {
                let wanted = String::from_str(key);
                let mut i: usize = 0;
                assert(fields@.skip(0) == fields@);
                while i < fields.len()
                    invariant
                        i <= fields.len(),
                        wanted@ == key@,
                        self.field(key@) == lookup(fields@, key@),
                        lookup(fields@, key@) == lookup(fields@.skip(i as int), key@),
                    decreases fields.len() - i,
                {
                    assert(fields@.skip(i as int).drop_first() == fields@.skip(i + 1));
                    if fields[i].0 == wanted {
                        return Some(&fields[i].1);
                    }
                    i += 1;
                }
                None
            },
            _ => None,
        }
    }

    /// The items of an array.
    pub fn as_array(&self) -> (items: Option<&Vec<Json>>)
        ensures
            match items {
                Some(v) => self.items() == Some(v@),
                None => self.items() is None,
            },
    {
        match self {
            Json::Array(items) => Some(items),
            _ => None,
        }
    }

    /// The characters of a text.
    pub fn as_str(&self) -> (text: Option<&str>)
        ensures
            match text {
                Some(s) => self.text() == Some(s@),
                None => self.text() is None,
            },
    {
        match self {
            Json::Text(s) => Some(s.as_str()),
            _ => None,
        }
    }

    /// The text in the field `key` of an object.
    pub fn member_text(&self, key: &str) -> (text: Option<&str>)
        ensures
            match text {
                Some(s) => self.text_field(key@) == Some(s@),
                None => self.text_field(key@) is None,
            },
    {
        match self.member(key) {
            Some(value) => value.as_str(),
            None => None,
        }
    }
}

} // verus!
