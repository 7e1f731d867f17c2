//! The fitness score record and its encoding as storage attributes.
use vstd::prelude::*;
use vstd::string::*;
use crate::decimal::{decimal, format_u32, lemma_parse_decimal, parse_u32, parse_u32_spec};
use crate::text::{assoc, find_entry};

verus! {

/// A storage attribute value: a string, a number held as its text, or a
/// value of another type (binary, boolean, list, ...), whose content no record
/// field can hold.
#[derive(Debug, Clone, PartialEq)]
pub enum AttrValue {
    S(String),
    N(String),
    Other,
}

/// A stored item: attribute names with their values.
pub type Item = Vec<(String, AttrValue)>;

/// The fields of a record, in the order in which they are encoded and decoded.
#[derive(Debug, Clone, Copy, PartialEq, Eq, Structural)]
pub enum Field {
    Username,
    Version,
    Age,
    Score,
}

/// Why an item does not decode into a record.
#[derive(Debug, Clone, Copy, PartialEq, Eq, Structural)]
pub enum DecodingError {
    /// The item has no attribute of the field's name.
    MissingAttribute(Field),
    /// The attribute carries the wrong type tag for the field.
    TypeMismatch(Field),
    /// A numeric attribute whose text is not an unsigned 32-bit number.
    InvalidNumber(Field),
}

pub open spec fn field_name(f: Field) -> Seq<char> {
    match f {
        Field::Username => "username"@,
        Field::Version => "version"@,
        Field::Age => "age"@,
        Field::Score => "score"@,
    }
}

impl Field {
    /// The attribute name under which the field is stored.
    pub fn name(&self) -> (r: &'static str)
        ensures
            r@ == field_name(*self),
    {
        match self {
            Field::Username => "username",
            Field::Version => "version",
            Field::Age => "age",
            Field::Score => "score",
        }
    }
}

/// Decoding of a string field.
pub open spec fn decode_str_spec(item: Seq<(String, AttrValue)>, f: Field) -> Result<
    Seq<char>,
    DecodingError,
> {
    match assoc(item, field_name(f)) {
        None => Err(DecodingError::MissingAttribute(f)),
        Some(AttrValue::S(s)) => Ok(s@),
        Some(_) => Err(DecodingError::TypeMismatch(f)),
    }
}

/// Decoding of a numeric field.
pub open spec fn decode_num_spec(item: Seq<(String, AttrValue)>, f: Field) -> Result<
    u32,
    DecodingError,
> {
    match assoc(item, field_name(f)) {
        None => Err(DecodingError::MissingAttribute(f)),
        Some(AttrValue::N(s)) => match parse_u32_spec(s@) {
            Some(n) => Ok(n),
            None => Err(DecodingError::InvalidNumber(f)),
        },
        Some(_) => Err(DecodingError::TypeMismatch(f)),
    }
}

/// What a record looks like: username, version, age, score.
pub type RecordView = (Seq<char>, Seq<char>, u32, u32);

/// Decoding of a whole item: the fields in order, the first failure wins.
pub open spec fn decode_spec(item: Seq<(String, AttrValue)>) -> Result<RecordView, DecodingError> {
    match decode_str_spec(item, Field::Username) {
        Err(e) => Err(e),
        Ok(u) => match decode_str_spec(item, Field::Version) {
            Err(e) => Err(e),
            Ok(v) => match decode_num_spec(item, Field::Age) {
                Err(e) => Err(e),
                Ok(a) => match decode_num_spec(item, Field::Score) {
                    Err(e) => Err(e),
                    Ok(s) => Ok((u, v, a, s)),
                },
            },
        },
    }
}

/// `a` is the string attribute holding `s`.
pub open spec fn is_str_attr(a: AttrValue, s: Seq<char>) -> bool {
    match a {
        AttrValue::S(t) => t@ == s,
        _ => false,
    }
}

/// `a` is the numeric attribute holding the canonical text of `n`.
pub open spec fn is_num_attr(a: AttrValue, n: u32) -> bool {
    match a {
        AttrValue::N(t) => t@ == decimal(n as nat),
        _ => false,
    }
}

/// `item` is the encoding of `r`: four attributes, in field order.
pub open spec fn encodes(item: Seq<(String, AttrValue)>, r: RecordView) -> bool {
    &&& item.len() == 4
    &&& item[0].0@ == field_name(Field::Username) && is_str_attr(item[0].1, r.0)
    &&& item[1].0@ == field_name(Field::Version) && is_str_attr(item[1].1, r.1)
    &&& item[2].0@ == field_name(Field::Age) && is_num_attr(item[2].1, r.2)
    &&& item[3].0@ == field_name(Field::Score) && is_num_attr(item[3].1, r.3)
}

/// A user's score, at an age, for a version of the application.
#[derive(Debug, Clone, Default)]
pub struct FitnessScore {
    username: String,
    version: String,
    age: u32,
    score: u32,
}

impl View for FitnessScore {
    type V = RecordView;

    closed spec fn view(&self) -> RecordView {
        (self.username@, self.version@, self.age, self.score)
    }
}

impl FitnessScore {
    pub fn new(username: String, version: String, age: u32, score: u32) -> (r: Self)
        ensures
            r@ == (username@, version@, age, score),
    {
        FitnessScore { username, version, age, score }
    }

    pub fn username(&self) -> (r: &str)
        ensures
            r@ == self@.0,
    {
        self.username.as_str()
    }

    pub fn version(&self) -> (r: &str)
        ensures
            r@ == self@.1,
    {
        self.version.as_str()
    }

    pub fn age(&self) -> (r: &u32)
        ensures
            *r == self@.2,
    {
        &self.age
    }

    pub fn score(&self) -> (r: &u32)
        ensures
            *r == self@.3,
    {
        &self.score
    }

    /// The username as a string attribute.
    pub fn attr_username(&self) -> (r: AttrValue)
        ensures
            is_str_attr(r, self@.0),
    {
        AttrValue::S(self.username.clone())
    }

    /// The version as a string attribute.
    pub fn attr_version(&self) -> (r: AttrValue)
        ensures
            is_str_attr(r, self@.1),
    {
        AttrValue::S(self.version.clone())
    }

    /// The age as a numeric attribute.
    pub fn attr_age(&self) -> (r: AttrValue)
        ensures
            is_num_attr(r, self@.2),
    {
        AttrValue::N(format_u32(self.age))
    }

    /// The score as a numeric attribute.
    pub fn attr_score(&self) -> (r: AttrValue)
        ensures
            is_num_attr(r, self@.3),
    {
        AttrValue::N(format_u32(self.score))
    }

    /// The record as a stored item.
    pub fn to_item(&self) -> (r: Item)
        ensures
            encodes(r@, self@),
    {
        let mut item: Item = Vec::new();
        item.push((String::from_str(Field::Username.name()), self.attr_username()));
        item.push((String::from_str(Field::Version.name()), self.attr_version()));
        item.push((String::from_str(Field::Age.name()), self.attr_age()));
        item.push((String::from_str(Field::Score.name()), self.attr_score()));
        item
    }

    /// Rebuilds a record from a stored item.
    pub fn from_item(item: &Item) -> (r: Result<FitnessScore, DecodingError>)
        ensures
            match (r, decode_spec(item@)) {
                (Ok(f), Ok(v)) => f@ == v,
                (Err(e), Err(d)) => e == d,
                _ => false,
            },
    {
        let username = match decode_str(item, Field::Username) {
            Ok(s) => s,
            Err(e) => return Err(e),
        };
        let version = match decode_str(item, Field::Version) {
            Ok(s) => s,
            Err(e) => return Err(e),
        };
        let age = match decode_num(item, Field::Age) {
            Ok(n) => n,
            Err(e) => return Err(e),
        };
        let score = match decode_num(item, Field::Score) {
            Ok(n) => n,
            Err(e) => return Err(e),
        };
        Ok(FitnessScore::new(username, version, age, score))
    }
}

fn decode_str(item: &Item, f: Field) -> (r: Result<String, DecodingError>)
    ensures
        match (r, decode_str_spec(item@, f)) {
            (Ok(s), Ok(t)) => s@ == t,
            (Err(e), Err(d)) => e == d,
            _ => false,
        },
{
    match find_entry(item, f.name()) {
        None => Err(DecodingError::MissingAttribute(f)),
        Some(AttrValue::S(s)) => Ok(s.clone()),
        Some(_) => Err(DecodingError::TypeMismatch(f)),
    }
}

fn decode_num(item: &Item, f: Field) -> (r: Result<u32, DecodingError>)
    ensures
        match (r, decode_num_spec(item@, f)) {
            (Ok(n), Ok(m)) => n == m,
            (Err(e), Err(d)) => e == d,
            _ => false,
        },
{
    match find_entry(item, f.name()) {
        None => Err(DecodingError::MissingAttribute(f)),
        Some(AttrValue::N(s)) => match parse_u32(s.as_str()) {
            Some(n) => Ok(n),
            None => Err(DecodingError::InvalidNumber(f)),
        },
        Some(_) => Err(DecodingError::TypeMismatch(f)),
    }
}

/// Encoding a record and decoding the item gives the record back.
pub proof fn lemma_round_trip(r: RecordView, item: Seq<(String, AttrValue)>)
    requires
        encodes(item, r),
    ensures
        decode_spec(item) == Ok::<RecordView, DecodingError>(r),
{
    reveal_strlit("username");
    reveal_strlit("version");
    reveal_strlit("age");
    reveal_strlit("score");
    lemma_parse_decimal(r.2);
    lemma_parse_decimal(r.3);
    let (u, v, a, s) = (
        field_name(Field::Username),
        field_name(Field::Version),
        field_name(Field::Age),
        field_name(Field::Score),
    );
    assert(u.len() == 8 && v.len() == 7 && a.len() == 3 && s.len() == 5);
    let d1 = item.drop_first();
    let d2 = d1.drop_first();
    let d3 = d2.drop_first();
    assert(d1[0] == item[1] && d2[0] == item[2] && d3[0] == item[3]);
    assert(assoc(item, u) == Some(item[0].1));
    assert(assoc(item, v) == assoc(d1, v) && assoc(d1, v) == Some(item[1].1));
    assert(assoc(d2, a) == Some(item[2].1));
    assert(assoc(item, a) == assoc(d1, a) && assoc(d1, a) == assoc(d2, a));
    assert(assoc(d3, s) == Some(item[3].1));
    assert(assoc(item, s) == assoc(d1, s) && assoc(d1, s) == assoc(d2, s));
    assert(assoc(d2, s) == assoc(d3, s));
}

/// The position of a field in decoding order.
pub open spec fn field_index(f: Field) -> int {
    match f {
        Field::Username => 0,
        Field::Version => 1,
        Field::Age => 2,
        Field::Score => 3,
    }
}

/// The field decodes on its own.
pub open spec fn field_decodes(item: Seq<(String, AttrValue)>, f: Field) -> bool {
    match f {
        Field::Username | Field::Version => decode_str_spec(item, f) is Ok,
        Field::Age | Field::Score => decode_num_spec(item, f) is Ok,
    }
}

/// An attribute whose type tag does not match its field makes decoding fail;
/// where every field before it decodes, the failure names that field.
pub proof fn lemma_tag_mismatch_fails(item: Seq<(String, AttrValue)>, f: Field)
    requires
        match assoc(item, field_name(f)) {
            Some(AttrValue::S(_)) => f == Field::Age || f == Field::Score,
            Some(AttrValue::N(_)) => f == Field::Username || f == Field::Version,
            Some(AttrValue::Other) => true,
            None => false,
        },
    ensures
        decode_spec(item) is Err,
        (forall|g: Field| field_index(g) < field_index(f) ==> #[trigger] field_decodes(item, g))
            ==> decode_spec(item) == Err::<RecordView, DecodingError>(
            DecodingError::TypeMismatch(f),
        ),
{
    assert(field_decodes(item, Field::Username) && field_decodes(item, Field::Version)
        && field_decodes(item, Field::Age) ==> decode_num_spec(item, Field::Age) is Ok);
}

} // verus!
