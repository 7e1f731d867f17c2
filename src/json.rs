//! JSON values as request and response bodies carry them, and the
//! records' JSON form.
use vstd::prelude::*;
use vstd::string::*;
use crate::record::{FitnessScore, RecordView};

verus! {

/// A JSON number, as it was read: a non-negative integer, a negative one,
/// or one with a fraction or exponent (whose value the rules here never need).
#[derive(Debug, Clone, Copy, PartialEq, Eq, Structural)]
pub enum JsonNumber {
    PosInt(u64),
    NegInt(i64),
    Float,
}

/// A JSON value; an object keeps its members in order.
#[derive(Debug, PartialEq)]
pub enum JsonValue {
    Null,
    Bool(bool),
    Number(JsonNumber),
    String(String),
    Array(Vec<JsonValue>),
    Object(Vec<(String, JsonValue)>),
}

/// `j` is the string `s`.
pub open spec fn is_json_str(j: JsonValue, s: Seq<char>) -> bool {
    match j {
        JsonValue::String(t) => t@ == s,
        _ => false,
    }
}

/// `j` is the non-negative integer `n`.
pub open spec fn is_json_uint(j: JsonValue, n: u64) -> bool {
    j == JsonValue::Number(JsonNumber::PosInt(n))
}

/// `j` is the JSON object of a record: its four fields by name, in order.
pub open spec fn is_record_json(j: JsonValue, r: RecordView) -> bool {
    match j {
        JsonValue::Object(m) => {
            &&& m@.len() == 4
            &&& m@[0].0@ == "username"@ && is_json_str(m@[0].1, r.0)
            &&& m@[1].0@ == "version"@ && is_json_str(m@[1].1, r.1)
            &&& m@[2].0@ == "age"@ && is_json_uint(m@[2].1, r.2 as u64)
            &&& m@[3].0@ == "score"@ && is_json_uint(m@[3].1, r.3 as u64)
        },
        _ => false,
    }
}

impl FitnessScore {
    /// The record as a JSON object.
    pub fn to_json(&self) -> (r: JsonValue)
        ensures
            is_record_json(r, self@),
    {
        let mut m: Vec<(String, JsonValue)> = Vec::new();
        m.push((String::from_str("username"), JsonValue::String(String::from_str(self.username()))));
        m.push((String::from_str("version"), JsonValue::String(String::from_str(self.version()))));
        m.push((String::from_str("age"), JsonValue::Number(JsonNumber::PosInt(*self.age() as u64))));
        m.push(
            (String::from_str("score"), JsonValue::Number(JsonNumber::PosInt(*self.score() as u64))),
        );
        JsonValue::Object(m)
    }
}

/// A response: an HTTP status and an optional JSON body.
#[derive(Debug, PartialEq)]
pub struct Response {
    pub status: u16,
    pub body: Option<JsonValue>,
}

/// `body` is the error object `{"type": kind, "message": message}`.
pub open spec fn is_error_body(body: Option<JsonValue>, kind: Seq<char>, message: Seq<char>) -> bool {
    match body {
        Some(JsonValue::Object(m)) => {
            &&& m@.len() == 2
            &&& m@[0].0@ == "type"@ && is_json_str(m@[0].1, kind)
            &&& m@[1].0@ == "message"@ && is_json_str(m@[1].1, message)
        },
        _ => false,
    }
}

/// The response for an error of kind `kind`.
pub fn error_response(status: u16, kind: String, message: String) -> (r: Response)
    ensures
        r.status == status,
        is_error_body(r.body, kind@, message@),
{
    let mut m: Vec<(String, JsonValue)> = Vec::new();
    m.push((String::from_str("type"), JsonValue::String(kind)));
    m.push((String::from_str("message"), JsonValue::String(message)));
    Response { status, body: Some(JsonValue::Object(m)) }
}

} // verus!
