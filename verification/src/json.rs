//! A JSON document as plain values.
//!
//! Every reply the remote service sends is JSON read for a handful of
//! fields. Parsing is delegated to serde_json behind one trusted bridge;
//! everything the protocol then does with the document — key lookup,
//! string comparison, shape checks — is verified code over this model.

use vstd::prelude::*;

verus! {

/// A JSON number: its value when it is an integer that fits `i64`, and
/// the text serde_json prints for it.
#[derive(Debug, PartialEq, Eq)]
pub struct JsonNum {
    pub int_value: Option<i64>,
    pub text: String,
}

/// A parsed JSON document. Object entries carry unique keys (serde_json
/// keeps the last binding of a repeated key) and come in the parser's
/// key order.
#[derive(Debug, PartialEq, Eq)]
pub enum JsonValue {
    Null,
    Bool(bool),
    Num(JsonNum),
    Str(String),
    Arr(Vec<JsonValue>),
    Obj(Vec<(String, JsonValue)>),
}

/// Declares serde_json's document type, so that the trusted bridge can
/// take it apart; the verified code itself never holds one.
#[verifier::external_type_specification]
#[verifier::external_body]
pub struct ExJsonValue(serde_json::Value);

/// The document a text denotes, if the text is valid JSON. Parsing is
/// deterministic: the same text always denotes the same document.
pub uninterp spec fn parsed_json(s: Seq<char>) -> Option<JsonValue>;

/// Relies on serde_json::Value: rebuilds a parsed document as plain
/// values, node for node (objects in the map's key order, numbers with
/// serde_json's own rendering).
#[verifier::external_body]
fn plain_value(v: &serde_json::Value) -> JsonValue {
    match v {
        serde_json::Value::Null => JsonValue::Null,
        serde_json::Value::Bool(b) => JsonValue::Bool(*b),
        serde_json::Value::Number(n) => JsonValue::Num(JsonNum { int_value: n.as_i64(), text: n.to_string() }),
        serde_json::Value::String(s) => JsonValue::Str(s.clone()),
        serde_json::Value::Array(items) => JsonValue::Arr(items.iter().map(plain_value).collect()),
        serde_json::Value::Object(entries) => JsonValue::Obj(
            entries.iter().map(|(k, u)| (k.clone(), plain_value(u))).collect(),
        ),
    }
}

/// Relies on serde_json::from_str: accepts a text exactly when it is
/// valid JSON, and returns the document it denotes; the error text is
/// serde_json's own diagnostic.
#[verifier::external_body]
pub fn parse_json(s: &str) -> (r: Result<JsonValue, String>)
    ensures
        r is Ok <==> parsed_json(s@) is Some,
        r matches Ok(v) ==> parsed_json(s@) == Some(v),
{
    match serde_json::from_str::<serde_json::Value>(s) {
        Ok(v) => Ok(plain_value(&v)),
        Err(e) => Err(e.to_string()),
    }
}

/// The value under `key` in a run of object entries: the first binding,
/// which is the only one, since parsed objects carry unique keys.
pub open spec fn lookup_entries(entries: Seq<(String, JsonValue)>, key: Seq<char>) -> Option<
    JsonValue,
>
    decreases entries.len(),
{
    if entries.len() == 0 {
        None
    } else if entries[0].0@ == key {
        Some(entries[0].1)
    } else {
        lookup_entries(entries.drop_first(), key)
    }
}

/// The value a document holds under `key`: a binding only when the
/// document is an object that has one, as `Value::get` answers it.
pub open spec fn spec_get(v: JsonValue, key: Seq<char>) -> Option<JsonValue> {
    match v {
        JsonValue::Obj(entries) => lookup_entries(entries@, key),
        _ => None,
    }
}

impl JsonValue {
    /// The value under `key`, when this document is an object holding one.
    pub fn get<'a>(&'a self, key: &str) -> (r: Option<&'a JsonValue>)
        ensures
            match r {
                Some(u) => spec_get(*self, key@) == Some(*u),
                None => spec_get(*self, key@) is None,
            },
    {
        match self {
            JsonValue::Obj(entries) => {
                proof {
                    assert(entries@.skip(0) =~= entries@);
                    assert(spec_get(*self, key@) == lookup_entries(entries@, key@));
                }
                let mut i: usize = 0;
                while i < entries.len()
                    invariant
                        spec_get(*self, key@) == lookup_entries(entries@, key@),
                        i <= entries@.len(),
                        forall|j: int| 0 <= j < i ==> entries@[j].0@ != key@,
                        lookup_entries(entries@, key@) == lookup_entries(
                            entries@.skip(i as int),
                            key@,
                        ),
                    decreases entries@.len() - i,
                {
                    if crate::text::str_eq(entries[i].0.as_str(), key) {
                        proof {
                            assert(entries@.skip(i as int)[0] == entries@[i as int]);
                            assert(lookup_entries(entries@.skip(i as int), key@) == Some(
                                entries@[i as int].1,
                            ));
                        }
                        return Some(&entries[i].1);
                    }
                    proof {
                        assert(entries@.skip(i as int).drop_first() =~= entries@.skip(i + 1));
                    }
                    i += 1;
                }
                proof {
                    assert(entries@.skip(i as int) =~= Seq::<(String, JsonValue)>::empty());
                }
                None
            },
            _ => None,
        }
    }

    /// The string a document holds, when it is a JSON string.
    pub open spec fn spec_as_str(self) -> Option<Seq<char>> {
        match self {
            JsonValue::Str(s) => Some(s@),
            _ => None,
        }
    }

    /// The string this document holds, when it is a JSON string.
    pub fn as_str<'a>(&'a self) -> (r: Option<&'a String>)
        ensures
            match r {
                Some(s) => self.spec_as_str() == Some(s@),
                None => self.spec_as_str() is None,
            },
    {
        match self {
            JsonValue::Str(s) => Some(s),
            _ => None,
        }
    }

    /// The integer a document holds, as `Value::as_i64` answers it.
    pub open spec fn spec_as_int(self) -> Option<i64> {
        match self {
            JsonValue::Num(n) => n.int_value,
            _ => None,
        }
    }

    /// The integer this document holds, when it is one that fits `i64`.
    pub fn as_int(&self) -> (r: Option<i64>)
        ensures
            r == self.spec_as_int(),
    {
        match self {
            JsonValue::Num(n) => n.int_value,
            _ => None,
        }
    }

    /// The items a document holds, when it is a JSON array.
    pub fn as_array<'a>(&'a self) -> (r: Option<&'a Vec<JsonValue>>)
        ensures
            match r {
                Some(items) => *self matches JsonValue::Arr(a) && a == *items,
                None => !(*self is Arr),
            },
    {
        match self {
            JsonValue::Arr(items) => Some(items),
            _ => None,
        }
    }
}

/// Whether an optional document is the JSON string `lit`, the way the
/// service's replies are probed (`table["stare"] == "success"`): a missing
/// binding or a non-string never matches.
pub open spec fn spec_is_str(v: Option<JsonValue>, lit: Seq<char>) -> bool {
    v matches Some(u) && u.spec_as_str() == Some(lit)
}

/// Whether the binding `v` is the JSON string `lit`.
pub fn is_str(v: Option<&JsonValue>, lit: &str) -> (r: bool)
    ensures
        r == spec_is_str(
            match v {
                Some(u) => Some(*u),
                None => None,
            },
            lit@,
        ),
{
    match v {
        Some(u) => match u.as_str() {
            Some(s) => crate::text::str_eq(s.as_str(), lit),
            None => false,
        },
        None => false,
    }
}

/// The plain text of a scalar document: the string itself unquoted, a
/// number as serde_json prints it, `true`/`false`/`null` for the rest.
/// An array or object has no scalar text and yields the empty string.
pub open spec fn spec_scalar_text(v: JsonValue) -> Seq<char> {
    match v {
        JsonValue::Null => "null"@,
        JsonValue::Bool(b) => if b {
            "true"@
        } else {
            "false"@
        },
        JsonValue::Num(n) => n.text@,
        JsonValue::Str(s) => s@,
        _ => Seq::<char>::empty(),
    }
}

/// The plain text of a scalar document.
pub fn scalar_text(v: &JsonValue) -> (r: String)
    ensures
        r@ == spec_scalar_text(*v),
{
    match v {
        JsonValue::Null => String::from_str("null"),
        JsonValue::Bool(b) => if *b {
            String::from_str("true")
        } else {
            String::from_str("false")
        },
        JsonValue::Num(n) => n.text.clone(),
        JsonValue::Str(s) => s.clone(),
        _ => String::new(),
    }
}

} // verus!
