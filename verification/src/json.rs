//! JSON documents as plain values.
//!
//! Parsing and printing are done by `serde_json`; everything that reads a
//! document works on the tree defined here.

use vstd::prelude::*;

verus! {

#[verifier::external_type_specification]
#[verifier::external_body]
pub struct ExJsonValue(serde_json::Value);

/// A JSON number, as far as it is an integer.
#[derive(Clone, Copy, Debug, PartialEq, Eq)]
pub enum JsonNumber {
    /// A number from zero up to the largest `u64`.
    Unsigned(u64),
    /// A negative number down to the least `i64`.
    Negative(i64),
    /// Any other number: its value is not kept.
    Other,
}

/// One member of a JSON object.
#[derive(Debug, PartialEq, Eq)]
pub struct JsonEntry {
    pub key: String,
    pub value: Json,
}

/// A JSON document.
#[derive(Debug, PartialEq, Eq)]
pub enum Json {
    Null,
    Bool(bool),
    Number(JsonNumber),
    Str(String),
    Array(Vec<Json>),
    Object(Vec<JsonEntry>),
}

/// The document that `serde_json::from_str` reads from a text with the
/// characters `text`, turned into a `Json`; `None` where it reports an error.
pub uninterp spec fn parsed_json(text: Seq<char>) -> Option<Json>;

/// The characters that `serde_json` prints for `value`.
pub uninterp spec fn printed_json(value: Json) -> Seq<char>;

/// The value of the first member of `entries`, at or after index `i`, whose
/// key is `key`.
pub open spec fn member_from(entries: Seq<JsonEntry>, key: Seq<char>, i: int) -> Option<Json>
    decreases entries.len() - i,
{
    if i < 0 || i >= entries.len() {
        None
    } else if entries[i].key@ == key {
        Some(entries[i].value)
    } else {
        member_from(entries, key, i + 1)
    }
}

/// The number that is `unsigned` where that is given, else `signed` where
/// that is given, else one whose value is not kept.
pub open spec fn number_of(unsigned: Option<u64>, signed: Option<i64>) -> JsonNumber {
    match (unsigned, signed) {
        (Some(u), _) => JsonNumber::Unsigned(u),
        (None, Some(i)) => JsonNumber::Negative(i),
        (None, None) => JsonNumber::Other,
    }
}

/// The number that `unsigned` and `signed` stand for.
pub fn number_from(unsigned: Option<u64>, signed: Option<i64>) -> (r: JsonNumber)
    ensures
        r == number_of(unsigned, signed),
{
    match (unsigned, signed) {
        (Some(u), _) => JsonNumber::Unsigned(u),
        (None, Some(i)) => JsonNumber::Negative(i),
        (None, None) => JsonNumber::Other,
    }
}

/// Copies a `serde_json::Value` into a `Json`, variant by variant. A number
/// is kept as `u64` where `as_u64` gives one, else as `i64` where `as_i64`
/// gives one; object members come in the order in which the map hands them
/// out. Nothing is claimed of the result here.
#[verifier::external_body]
fn json_from_value(value: &serde_json::Value) -> Json {
    match value {
        serde_json::Value::Null => Json::Null,
        serde_json::Value::Bool(b) => Json::Bool(*b),
        serde_json::Value::Number(n) => Json::Number(number_from(n.as_u64(), n.as_i64())),
        serde_json::Value::String(s) => Json::Str(s.clone()),
        serde_json::Value::Array(items) => Json::Array(items.iter().map(json_from_value).collect()),
        serde_json::Value::Object(map) => Json::Object(
            map.iter().map(|(k, v)| JsonEntry { key: k.clone(), value: json_from_value(v) }).collect(),
        ),
    }
}

/// Copies a `Json` into a `serde_json::Value`, variant by variant. A number
/// whose value was not kept becomes `null`; of object members with the
/// same key the map keeps the last. Nothing is claimed of the result here.
#[verifier::external_body]
fn json_to_value(value: &Json) -> serde_json::Value {
    match value {
        Json::Null => serde_json::Value::Null,
        Json::Bool(b) => serde_json::Value::Bool(*b),
        Json::Number(JsonNumber::Unsigned(u)) => serde_json::Value::from(*u),
        Json::Number(JsonNumber::Negative(i)) => serde_json::Value::from(*i),
        Json::Number(JsonNumber::Other) => serde_json::Value::Null,
        Json::Str(s) => serde_json::Value::String(s.clone()),
        Json::Array(items) => serde_json::Value::Array(items.iter().map(json_to_value).collect()),
        Json::Object(entries) => serde_json::Value::Object(
            entries.iter().map(|e| (e.key.clone(), json_to_value(&e.value))).collect(),
        ),
    }
}

/// Reads `text` with `serde_json::from_str`. The result depends on the text
/// alone; the contract names it.
#[verifier::external_body]
fn read_json(text: &str) -> (r: Option<Json>)
    ensures
        r == parsed_json(text@),
{
    match serde_json::from_str::<serde_json::Value>(text) {
        Ok(value) => Some(json_from_value(&value)),
        Err(_) => None,
    }
}

/// Prints `value` with `serde_json`'s `Display`, in its compact form. The
/// result depends on the document alone; the contract names it.
#[verifier::external_body]
fn print_json(value: &Json) -> (r: String)
    ensures
        r@ == printed_json(*value),
{
    json_to_value(value).to_string()
}

impl Json {
    /// The member `key` of an object; `None` for anything but an object and
    /// for an object without that member.
    pub open spec fn field(self, key: Seq<char>) -> Option<Json> {
        match self {
            Json::Object(entries) => member_from(entries@, key, 0),
            _ => None,
        }
    }

    /// The characters of a string; `None` for anything else.
    pub open spec fn text(self) -> Option<Seq<char>> {
        match self {
            Json::Str(s) => Some(s@),
            _ => None,
        }
    }

    /// The value of a boolean; `None` for anything else.
    pub open spec fn boolean(self) -> Option<bool> {
        match self {
            Json::Bool(b) => Some(b),
            _ => None,
        }
    }

    /// The value of a number that fits in `u64`; `None` for anything else.
    pub open spec fn unsigned(self) -> Option<u64> {
        match self {
            Json::Number(JsonNumber::Unsigned(u)) => Some(u),
            _ => None,
        }
    }

    /// The items of an array; `None` for anything else.
    pub open spec fn items(self) -> Option<Seq<Json>> {
        match self {
            Json::Array(items) => Some(items@),
            _ => None,
        }
    }

    /// The characters of the string member `key`.
    pub open spec fn text_field(self, key: Seq<char>) -> Option<Seq<char>> {
        match self.field(key) {
            Some(value) => value.text(),
            None => None,
        }
    }

    /// The value of the boolean member `key`.
    pub open spec fn bool_field(self, key: Seq<char>) -> Option<bool> {
        match self.field(key) {
            Some(value) => value.boolean(),
            None => None,
        }
    }

    /// The value of the member `key` where it is a number that fits in `u64`.
    pub open spec fn unsigned_field(self, key: Seq<char>) -> Option<u64> {
        match self.field(key) {
            Some(value) => value.unsigned(),
            None => None,
        }
    }

    /// The items of the array member `key`.
    pub open spec fn items_field(self, key: Seq<char>) -> Option<Seq<Json>> {
        match self.field(key) {
            Some(value) => value.items(),
            None => None,
        }
    }

    /// Reads a JSON text. `None` where the text is no JSON document.
    pub fn parse(text: &str) -> (r: Option<Json>)
        ensures
            r == parsed_json(text@),
    {
        read_json(text)
    }

    /// Prints the document as compact JSON text.
    pub fn to_text(&self) -> (r: String)
        ensures
            r@ == printed_json(*self),
    {
        print_json(self)
    }

    /// A JSON string with the characters of `s`.
    pub fn string(s: &str) -> (r: Json)
        ensures
            r.text() == Some(s@),
            r is Str,
    {
        Json::Str(s.to_owned())
    }

    /// The member `key` of an object.
    pub fn get(&self, key: &str) -> (r: Option<&Json>)
        ensures
            match r {
                Some(value) => self.field(key@) == Some(*value),
                None => self.field(key@) is None,
            },
    {
        match self {
            Json::Object(entries) => {
                let wanted = key.to_owned();
                let mut i: usize = 0;
                while i < entries.len()
                    invariant
                        i <= entries.len(),
                        wanted@ == key@,
                        self.field(key@) == member_from(entries@, key@, i as int),
                    decreases entries.len() - i,
                {
                    if entries[i].key == wanted {
                        return Some(&entries[i].value);
                    }
                    i += 1;
                }
                None
            },
            _ => None,
        }
    }

    /// The characters of a string.
    pub fn as_str(&self) -> (r: Option<&str>)
        ensures
            match r {
                Some(s) => self.text() == Some(s@),
                None => self.text() is None,
            },
    {
        match self {
            Json::Str(s) => Some(s.as_str()),
            _ => None,
        }
    }

    /// The value of a boolean.
    pub fn as_bool(&self) -> (r: Option<bool>)
        ensures
            r == self.boolean(),
    {
        match self {
            Json::Bool(b) => Some(*b),
            _ => None,
        }
    }

    /// The value of a number that fits in `u64`.
    pub fn as_u64(&self) -> (r: Option<u64>)
        ensures
            r == self.unsigned(),
    {
        match self {
            Json::Number(JsonNumber::Unsigned(u)) => Some(*u),
            _ => None,
        }
    }

    /// The items of an array.
    pub fn as_array(&self) -> (r: Option<&Vec<Json>>)
        ensures
            match r {
                Some(items) => self.items() == Some(items@),
                None => self.items() is None,
            },
    {
        match self {
            Json::Array(items) => Some(items),
            _ => None,
        }
    }

    /// The string member `key`, as an owned string.
    pub fn get_string(&self, key: &str) -> (r: Option<String>)
        ensures
            match r {
                Some(s) => self.text_field(key@) == Some(s@),
                None => self.text_field(key@) is None,
            },
    {
        match self.get(key) {
            Some(value) => match value.as_str() {
                Some(s) => Some(s.to_owned()),
                None => None,
            },
            None => None,
        }
    }

    /// The boolean member `key`.
    pub fn get_bool(&self, key: &str) -> (r: Option<bool>)
        ensures
            r == self.bool_field(key@),
    {
        match self.get(key) {
            Some(value) => value.as_bool(),
            None => None,
        }
    }

    /// The member `key` where it is a number that fits in `u64`.
    pub fn get_u64(&self, key: &str) -> (r: Option<u64>)
        ensures
            r == self.unsigned_field(key@),
    {
        match self.get(key) {
            Some(value) => value.as_u64(),
            None => None,
        }
    }

    /// The items of the array member `key`.
    pub fn get_array(&self, key: &str) -> (r: Option<&Vec<Json>>)
        ensures
            match r {
                Some(items) => self.items_field(key@) == Some(items@),
                None => self.items_field(key@) is None,
            },
    {
        match self.get(key) {
            Some(value) => value.as_array(),
            None => None,
        }
    }
}

} // verus!
