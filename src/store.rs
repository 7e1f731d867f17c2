//! Storing a score: a JSON body becomes a record and a single-item write,
//! and the write's outcome becomes a response.
use vstd::prelude::*;
use vstd::string::*;
use crate::json::{error_response, is_error_body, JsonNumber, JsonValue, Response};
use crate::record::{encodes, FitnessScore, Item, RecordView};
use crate::text::{assoc, find_entry};

verus! {

/// What a request to store a score can fail with.
#[derive(Debug, Clone, Copy, PartialEq, Eq, Structural)]
pub enum FitnessScoreStoreError {
    /// The body is not a record with all four fields of the right types.
    InvalidFitnessScore,
    /// The database refused or failed the write.
    DynamoDBPutError,
}

/// A write of one item into a table, replacing any item with its key.
#[derive(Debug, Clone)]
pub struct PutPlan {
    pub table_name: String,
    pub item: Item,
}

/// The string member `key` of an object.
pub open spec fn str_member(m: Seq<(String, JsonValue)>, key: Seq<char>) -> Option<Seq<char>> {
    match assoc(m, key) {
        Some(JsonValue::String(s)) => Some(s@),
        _ => None,
    }
}

/// The member `key` of an object, where it is an integer that fits in 32 bits
/// unsigned.
pub open spec fn u32_member(m: Seq<(String, JsonValue)>, key: Seq<char>) -> Option<u32> {
    match assoc(m, key) {
        Some(JsonValue::Number(JsonNumber::PosInt(n))) => if n <= u32::MAX {
            Some(n as u32)
        } else {
            None
        },
        _ => None,
    }
}

/// The record that a body holds: an object with a string `username` and
/// `version` and an unsigned 32-bit `age` and `score`; other members are ignored.
pub open spec fn body_record(body: Option<JsonValue>) -> Option<RecordView> {
    match body {
        Some(JsonValue::Object(m)) => match (
            str_member(m@, "username"@),
            str_member(m@, "version"@),
            u32_member(m@, "age"@),
            u32_member(m@, "score"@),
        ) {
            (Some(u), Some(v), Some(a), Some(s)) => Some((u, v, a, s)),
            _ => None,
        },
        _ => None,
    }
}

fn str_field(m: &Vec<(String, JsonValue)>, key: &str) -> (r: Option<String>)
    ensures
        match r {
            Some(s) => str_member(m@, key@) == Some(s@),
            None => str_member(m@, key@) is None,
        },
{
    match find_entry(m, key) {
        Some(JsonValue::String(s)) => Some(s.clone()),
        _ => None,
    }
}

fn u32_field(m: &Vec<(String, JsonValue)>, key: &str) -> (r: Option<u32>)
    ensures
        r == u32_member(m@, key@),
{
    match find_entry(m, key) {
        Some(JsonValue::Number(JsonNumber::PosInt(n))) => if *n <= u32::MAX as u64 {
            Some(*n as u32)
        } else {
            None
        },
        _ => None,
    }
}

/// Reads a record from a request body; `None` stands for a missing or
/// malformed body.
pub fn parse_fitness_score(body: &Option<JsonValue>) -> (r: Result<FitnessScore, FitnessScoreStoreError>)
    ensures
        match (r, body_record(*body)) {
            (Ok(f), Some(v)) => f@ == v,
            (Err(e), None) => e == FitnessScoreStoreError::InvalidFitnessScore,
            _ => false,
        },
{
    let m = match body {
        Some(JsonValue::Object(m)) => m,
        _ => return Err(FitnessScoreStoreError::InvalidFitnessScore),
    };
    let username = str_field(m, "username");
    let version = str_field(m, "version");
    let age = u32_field(m, "age");
    let score = u32_field(m, "score");
    match (username, version, age, score) {
        (Some(u), Some(v), Some(a), Some(s)) => Ok(FitnessScore::new(u, v, a, s)),
        _ => Err(FitnessScoreStoreError::InvalidFitnessScore),
    }
}

/// The write that a request body asks for: its record, encoded, into `table_name`.
pub fn plan_store(table_name: &str, body: &Option<JsonValue>) -> (r: Result<
    PutPlan,
    FitnessScoreStoreError,
>)
    ensures
        match (r, body_record(*body)) {
            (Ok(plan), Some(v)) => plan.table_name@ == table_name@ && encodes(plan.item@, v),
            (Err(e), None) => e == FitnessScoreStoreError::InvalidFitnessScore,
            _ => false,
        },
{
    match parse_fitness_score(body) {
        Ok(f) => Ok(PutPlan { table_name: String::from_str(table_name), item: f.to_item() }),
        Err(e) => Err(e),
    }
}

pub open spec fn store_error_status(e: FitnessScoreStoreError) -> u16 {
    match e {
        FitnessScoreStoreError::InvalidFitnessScore => 400,
        FitnessScoreStoreError::DynamoDBPutError => 500,
    }
}

pub open spec fn store_error_kind(e: FitnessScoreStoreError) -> Seq<char> {
    match e {
        FitnessScoreStoreError::InvalidFitnessScore => "InvalidFitnessScore"@,
        FitnessScoreStoreError::DynamoDBPutError => "DynamoDBPutError"@,
    }
}

pub open spec fn store_error_message(e: FitnessScoreStoreError) -> Seq<char> {
    match e {
        FitnessScoreStoreError::InvalidFitnessScore => "invalid fitness score payload. it must have username(string), version(string), age(integer), score(integer)"@,
        FitnessScoreStoreError::DynamoDBPutError => "error during writing to dynamodb"@,
    }
}

impl FitnessScoreStoreError {
    /// The HTTP status: 400 for a bad body, 500 for a failed write.
    pub fn status(&self) -> (r: u16)
        ensures
            r == store_error_status(*self),
    {
        match self {
            FitnessScoreStoreError::InvalidFitnessScore => 400,
            FitnessScoreStoreError::DynamoDBPutError => 500,
        }
    }

    /// The name of the error's kind.
    pub fn kind(&self) -> (r: String)
        ensures
            r@ == store_error_kind(*self),
    {
        match self {
            FitnessScoreStoreError::InvalidFitnessScore => String::from_str("InvalidFitnessScore"),
            FitnessScoreStoreError::DynamoDBPutError => String::from_str("DynamoDBPutError"),
        }
    }

    /// A message for people.
    pub fn message(&self) -> (r: String)
        ensures
            r@ == store_error_message(*self),
    {
        match self {
            FitnessScoreStoreError::InvalidFitnessScore => String::from_str(
                "invalid fitness score payload. it must have username(string), version(string), age(integer), score(integer)",
            ),
            FitnessScoreStoreError::DynamoDBPutError => String::from_str(
                "error during writing to dynamodb",
            ),
        }
    }

    /// The error as a response with a structured body.
    pub fn into_response(self) -> (r: Response)
        ensures
            r.status == store_error_status(self),
            is_error_body(r.body, store_error_kind(self), store_error_message(self)),
    {
        error_response(self.status(), self.kind(), self.message())
    }
}

/// The response once the write was attempted: an empty 200 where it
/// succeeded, a structured 500 where it failed.
pub fn store_response(written: bool) -> (r: Response)
    ensures
        written ==> r.status == 200 && r.body is None,
        !written ==> r.status == 500 && is_error_body(
            r.body,
            "DynamoDBPutError"@,
            "error during writing to dynamodb"@,
        ),
{
    if written {
        Response { status: 200, body: None }
    } else {
        FitnessScoreStoreError::DynamoDBPutError.into_response()
    }
}

} // verus!
