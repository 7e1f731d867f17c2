//! Reading scores: request parameters become a range query over one of two
//! secondary indexes, and the query's outcome becomes a response.
use vstd::prelude::*;
use vstd::string::*;
use crate::json::{error_response, is_error_body, is_record_json, JsonValue, Response};
use crate::record::{decode_spec, DecodingError, FitnessScore, Item};
use crate::text::{assoc, find_entry, str_eq};

verus! {

/// Names of the table and of its two secondary indexes.
#[derive(Debug, Clone)]
pub struct Config {
    pub table_name: String,
    pub index_name_score: String,
    pub index_name_age: String,
}

/// The field by which results are selected and ordered.
#[derive(Debug, Clone, Copy, PartialEq, Eq, Structural)]
pub enum SortKey {
    Score,
    Age,
}

/// Query-string parameters: names and values, the first of a name counting.
pub type Params = Vec<(String, String)>;

/// A range query: items of one version whose sort attribute lies between
/// `lower` and `upper` inclusive, read through the sort key's index.
#[derive(Debug, Clone)]
pub struct QueryPlan {
    pub table_name: String,
    pub index_name: String,
    pub sort: SortKey,
    pub version: String,
    pub lower: String,
    pub upper: String,
    pub scan_index_forward: bool,
}

/// What a request for scores can fail with.
#[derive(Debug, Clone, PartialEq)]
pub enum FitnessScoreGetError {
    VersionNotSpecified,
    UnknownSortType(String),
    UnknownOrderType(String),
    DynamoDBQueryError,
}

/// The parameter `key`, or `default` where it is absent.
pub open spec fn param_or(p: Seq<(String, String)>, key: Seq<char>, default: Seq<char>) -> Seq<
    char,
> {
    match assoc(p, key) {
        Some(v) => v@,
        None => default,
    }
}

pub open spec fn sort_text(p: Seq<(String, String)>) -> Seq<char> {
    param_or(p, "sort"@, "score"@)
}

pub open spec fn order_text(p: Seq<(String, String)>) -> Seq<char> {
    param_or(p, "order"@, "asc"@)
}

pub open spec fn sort_known(p: Seq<(String, String)>) -> bool {
    sort_text(p) == "score"@ || sort_text(p) == "age"@
}

pub open spec fn order_known(p: Seq<(String, String)>) -> bool {
    order_text(p) == "asc"@ || order_text(p) == "desc"@
}

/// `plan` is the query that valid parameters `p` ask for under `cfg`.
pub open spec fn is_plan_for(plan: QueryPlan, p: Seq<(String, String)>, cfg: Config) -> bool {
    &&& plan.table_name@ == cfg.table_name@
    &&& assoc(p, "version"@) matches Some(v) && plan.version@ == v@
    &&& plan.scan_index_forward == (order_text(p) == "asc"@)
    &&& sort_text(p) == "score"@ ==> {
        &&& plan.sort == SortKey::Score
        &&& plan.index_name@ == cfg.index_name_score@
        &&& plan.lower@ == param_or(p, "min_score"@, "-1"@)
        &&& plan.upper@ == param_or(p, "max_score"@, "101"@)
    }
    &&& sort_text(p) == "age"@ ==> {
        &&& plan.sort == SortKey::Age
        &&& plan.index_name@ == cfg.index_name_age@
        &&& plan.lower@ == param_or(p, "min_age"@, "-1"@)
        &&& plan.upper@ == param_or(p, "max_age"@, "200"@)
    }
}

fn param_or_default(params: &Params, key: &str, default: &str) -> (r: String)
    ensures
        r@ == param_or(params@, key@, default@),
{
    match find_entry(params, key) {
        Some(v) => v.clone(),
        None => String::from_str(default),
    }
}

/// Turns request parameters into a query: the sort key is checked first,
/// then the order, then the presence of a version.
pub fn plan_query(params: &Params, config: &Config) -> (r: Result<QueryPlan, FitnessScoreGetError>)
    ensures
        !sort_known(params@) ==> match r {
            Err(FitnessScoreGetError::UnknownSortType(s)) => s@ == sort_text(params@),
            _ => false,
        },
        sort_known(params@) && !order_known(params@) ==> match r {
            Err(FitnessScoreGetError::UnknownOrderType(s)) => s@ == order_text(params@),
            _ => false,
        },
        sort_known(params@) && order_known(params@) && assoc(params@, "version"@) is None
            ==> r == Err::<QueryPlan, FitnessScoreGetError>(
            FitnessScoreGetError::VersionNotSpecified,
        ),
        sort_known(params@) && order_known(params@) && assoc(params@, "version"@) is Some
            ==> match r {
            Ok(plan) => is_plan_for(plan, params@, *config),
            Err(_) => false,
        },
{
    let sort_name = param_or_default(params, "sort", "score");
    let sort = if str_eq(sort_name.as_str(), "score") {
        SortKey::Score
    } else if str_eq(sort_name.as_str(), "age") {
        SortKey::Age
    } else {
        return Err(FitnessScoreGetError::UnknownSortType(sort_name));
    };
    let order_name = param_or_default(params, "order", "asc");
    let scan_index_forward = if str_eq(order_name.as_str(), "asc") {
        true
    } else if str_eq(order_name.as_str(), "desc") {
        false
    } else {
        return Err(FitnessScoreGetError::UnknownOrderType(order_name));
    };
    let version = match find_entry(params, "version") {
        Some(v) => v.clone(),
        None => return Err(FitnessScoreGetError::VersionNotSpecified),
    };
    proof {
        reveal_strlit("score");
        reveal_strlit("age");
        reveal_strlit("asc");
        reveal_strlit("desc");
        assert("score"@.len() != "age"@.len());
        assert("asc"@.len() != "desc"@.len());
    }
    let (index_name, lower, upper) = match sort {
        SortKey::Score => (
            config.index_name_score.clone(),
            param_or_default(params, "min_score", "-1"),
            param_or_default(params, "max_score", "101"),
        ),
        SortKey::Age => (
            config.index_name_age.clone(),
            param_or_default(params, "min_age", "-1"),
            param_or_default(params, "max_age", "200"),
        ),
    };
    let plan = QueryPlan {
        table_name: config.table_name.clone(),
        index_name,
        sort,
        version,
        lower,
        upper,
        scan_index_forward,
    };
    Ok(plan)
}

impl QueryPlan {
    /// The key condition: the version matches and the sort attribute lies
    /// between the two bounds.
    pub fn key_condition_expression(&self) -> (r: &'static str)
        ensures
            self.sort == SortKey::Score ==> r@
                == "#version = :version and #score BETWEEN :min_score AND :max_score"@,
            self.sort == SortKey::Age ==> r@
                == "#version = :version and #age BETWEEN :min_age AND :max_age"@,
    {
        match self.sort {
            SortKey::Score => "#version = :version and #score BETWEEN :min_score AND :max_score",
            SortKey::Age => "#version = :version and #age BETWEEN :min_age AND :max_age",
        }
    }

    /// Placeholder and attribute name of the sort attribute.
    pub fn sort_attribute(&self) -> (r: (&'static str, &'static str))
        ensures
            self.sort == SortKey::Score ==> r.0@ == "#score"@ && r.1@ == "score"@,
            self.sort == SortKey::Age ==> r.0@ == "#age"@ && r.1@ == "age"@,
    {
        match self.sort {
            SortKey::Score => ("#score", "score"),
            SortKey::Age => ("#age", "age"),
        }
    }

    /// Placeholders of the lower and upper bound values.
    pub fn bound_placeholders(&self) -> (r: (&'static str, &'static str))
        ensures
            self.sort == SortKey::Score ==> r.0@ == ":min_score"@ && r.1@ == ":max_score"@,
            self.sort == SortKey::Age ==> r.0@ == ":min_age"@ && r.1@ == ":max_age"@,
    {
        match self.sort {
            SortKey::Score => (":min_score", ":max_score"),
            SortKey::Age => (":min_age", ":max_age"),
        }
    }
}

pub open spec fn get_error_status(e: FitnessScoreGetError) -> u16 {
    match e {
        FitnessScoreGetError::DynamoDBQueryError => 500,
        _ => 400,
    }
}

pub open spec fn get_error_kind(e: FitnessScoreGetError) -> Seq<char> {
    match e {
        FitnessScoreGetError::VersionNotSpecified => "VersionNotSpecified"@,
        FitnessScoreGetError::UnknownSortType(_) => "UnknownSortType"@,
        FitnessScoreGetError::UnknownOrderType(_) => "UnknownOrderType"@,
        FitnessScoreGetError::DynamoDBQueryError => "DynamoDBQueryError"@,
    }
}

pub open spec fn get_error_message(e: FitnessScoreGetError) -> Seq<char> {
    match e {
        FitnessScoreGetError::VersionNotSpecified => "version is not specified"@,
        FitnessScoreGetError::UnknownSortType(s) => "unknown sort type (`"@ + s@ + "`)"@,
        FitnessScoreGetError::UnknownOrderType(s) => "unknown order type (`"@ + s@ + "`)"@,
        FitnessScoreGetError::DynamoDBQueryError => "error during querying dynamodb"@,
    }
}

impl FitnessScoreGetError {
    /// The HTTP status: 500 for a failed query, 400 for a bad request.
    pub fn status(&self) -> (r: u16)
        ensures
            r == get_error_status(*self),
    {
        match self {
            FitnessScoreGetError::DynamoDBQueryError => 500,
            _ => 400,
        }
    }

    /// The name of the error's kind.
    pub fn kind(&self) -> (r: String)
        ensures
            r@ == get_error_kind(*self),
    {
        match self {
            FitnessScoreGetError::VersionNotSpecified => String::from_str("VersionNotSpecified"),
            FitnessScoreGetError::UnknownSortType(_) => String::from_str("UnknownSortType"),
            FitnessScoreGetError::UnknownOrderType(_) => String::from_str("UnknownOrderType"),
            FitnessScoreGetError::DynamoDBQueryError => String::from_str("DynamoDBQueryError"),
        }
    }

    /// A message for people.
    pub fn message(&self) -> (r: String)
        ensures
            r@ == get_error_message(*self),
    {
        match self {
            FitnessScoreGetError::VersionNotSpecified => String::from_str(
                "version is not specified",
            ),
            FitnessScoreGetError::UnknownSortType(s) => String::from_str(
                "unknown sort type (`",
            ).concat(s.as_str()).concat("`)"),
            FitnessScoreGetError::UnknownOrderType(s) => String::from_str(
                "unknown order type (`",
            ).concat(s.as_str()).concat("`)"),
            FitnessScoreGetError::DynamoDBQueryError => String::from_str(
                "error during querying dynamodb",
            ),
        }
    }

    /// The error as a response with a structured body.
    pub fn into_response(self) -> (r: Response)
        ensures
            r.status == get_error_status(self),
            is_error_body(r.body, get_error_kind(self), get_error_message(self)),
    {
        error_response(self.status(), self.kind(), self.message())
    }
}

/// Every item decodes, and `records` holds the records in the items' order.
pub open spec fn decodes_all(items: Seq<Item>, records: Seq<FitnessScore>) -> bool {
    &&& records.len() == items.len()
    &&& forall|i: int|
        0 <= i < items.len() ==> decode_spec(#[trigger] items[i]@) == Ok::<
            _,
            DecodingError,
        >(records[i]@)
}

/// Decodes every item, in order; the first item that does not decode
/// gives the error.
pub fn records_from_items(items: &Vec<Item>) -> (r: Result<Vec<FitnessScore>, DecodingError>)
    ensures
        match r {
            Ok(v) => decodes_all(items@, v@),
            Err(e) => exists|i: int|
                0 <= i < items@.len() && decode_spec(#[trigger] items@[i]@) == Err::<
                    (Seq<char>, Seq<char>, u32, u32),
                    _,
                >(e) && forall|j: int| 0 <= j < i ==> decode_spec(#[trigger] items@[j]@) is Ok,
        },
{
    let mut records: Vec<FitnessScore> = Vec::new();
    let mut i: usize = 0;
    while i < items.len()
        invariant
            i <= items@.len(),
            decodes_all(items@.subrange(0, i as int), records@),
        decreases items@.len() - i,
    {
        match FitnessScore::from_item(&items[i]) {
            Ok(f) => {
                records.push(f);
            },
            Err(e) => {
                assert forall|j: int| 0 <= j < i implies decode_spec(#[trigger] items@[j]@) is Ok by {
                    assert(items@.subrange(0, i as int)[j] == items@[j]);
                }
                return Err(e);
            },
        }
        i = i + 1;
        assert forall|j: int| 0 <= j < i implies decode_spec(
            #[trigger] items@.subrange(0, i as int)[j]@,
        ) == Ok::<_, DecodingError>(records@[j]@) by {
            if j < i - 1 {
                assert(items@.subrange(0, i as int)[j] == items@.subrange(0, i - 1)[j]);
            }
        }
    }
    assert(items@.subrange(0, i as int) =~= items@);
    Ok(records)
}

/// `body` is `{"fitness_scores": [...]}` with the records' JSON in order.
pub open spec fn is_scores_body(body: Option<JsonValue>, records: Seq<FitnessScore>) -> bool {
    match body {
        Some(JsonValue::Object(m)) => {
            &&& m@.len() == 1
            &&& m@[0].0@ == "fitness_scores"@
            &&& match m@[0].1 {
                JsonValue::Array(a) => a@.len() == records.len() && forall|i: int|
                    0 <= i < records.len() ==> is_record_json(#[trigger] a@[i], records[i]@),
                _ => false,
            }
        },
        _ => false,
    }
}

/// The response to a query: `None` where the database failed, else the
/// items it returned. Items that do not decode count as a failed query.
pub fn query_response(outcome: Option<Vec<Item>>) -> (r: Response)
    ensures
        match outcome {
            None => r.status == 500 && is_error_body(
                r.body,
                "DynamoDBQueryError"@,
                "error during querying dynamodb"@,
            ),
            Some(items) => if forall|i: int|
                0 <= i < items@.len() ==> decode_spec(#[trigger] items@[i]@) is Ok {
                r.status == 200 && exists|records: Seq<FitnessScore>|
                    decodes_all(items@, records) && is_scores_body(r.body, records)
            } else {
                r.status == 500 && is_error_body(
                    r.body,
                    "DynamoDBQueryError"@,
                    "error during querying dynamodb"@,
                )
            },
        },
{
    let items = match outcome {
        None => return FitnessScoreGetError::DynamoDBQueryError.into_response(),
        Some(items) => items,
    };
    let records = match records_from_items(&items) {
        Ok(v) => v,
        Err(_) => return FitnessScoreGetError::DynamoDBQueryError.into_response(),
    };
    let mut list: Vec<JsonValue> = Vec::new();
    let mut i: usize = 0;
    while i < records.len()
        invariant
            i <= records@.len(),
            list@.len() == i,
            forall|j: int| 0 <= j < i ==> is_record_json(#[trigger] list@[j], records@[j]@),
        decreases records@.len() - i,
    {
        list.push(records[i].to_json());
        i = i + 1;
    }
    let mut m: Vec<(String, JsonValue)> = Vec::new();
    m.push((String::from_str("fitness_scores"), JsonValue::Array(list)));
    Response { status: 200, body: Some(JsonValue::Object(m)) }
}

} // verus!
