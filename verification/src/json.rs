//! JSON values and the dot-path lookup that every backend reads metadata
//! with.
use vstd::prelude::*;
use crate::error::ErrorStatus;
use crate::text::{
    decimal, decimal_string, lemma_split_of_both, lemma_split_without_separator, parse_u64, split,
    split_at_char, str_eq, unsigned_value, views,
};

verus! {

/// A JSON number: an integer where it is one, else the text of the number.
#[derive(Debug)]
pub enum JsonNumber {
    /// A non-negative integer.
    PosInt(u64),
    /// An integer that was written with a minus sign.
    NegInt(i64),
    /// Any other number, as it prints.
    Float(String),
}

/// A JSON value. An object keeps its members in a list; where a key occurs
/// twice the later member counts.
#[derive(Debug)]
pub enum Json {
    Null,
    Bool(bool),
    Number(JsonNumber),
    Text(String),
    Array(Vec<Json>),
    Object(Vec<(String, Json)>),
}

/// Why a lookup failed.
#[derive(Debug, Clone, Copy, PartialEq, Eq, Structural)]
pub enum JsonErrorKind {
    /// An object has no member with the segment as its key.
    KeyMissing,
    /// The segment should index an array and is no index.
    IndexParse,
    /// The array is shorter than the index asks.
    IndexOutOfBounds,
    /// The segment should select inside a value that is no object or array.
    NotAContainer,
    /// The value found is not of the type asked for.
    Deserialize,
}

/// A failed lookup. Its status is always permanent.
#[derive(Debug)]
pub struct JsonExtractError {
    pub message: String,
    pub status: ErrorStatus,
    pub kind: JsonErrorKind,
}

/// What a failed lookup reports, as mathematics.
pub struct JsonFailure {
    pub kind: JsonErrorKind,
    pub message: Seq<char>,
}

impl JsonExtractError {
    /// Whether this error reports exactly `f`.
    pub open spec fn reports(&self, f: JsonFailure) -> bool {
        &&& self.kind == f.kind
        &&& self.message@ == f.message
        &&& self.status == ErrorStatus::Permanent
    }

    /// The text of this error, as it is shown to a user.
    pub fn to_string(&self) -> (r: String)
        ensures
            r@ == "json value extract error: "@ + self.message@,
    {
        let mut s = "json value extract error: ".to_owned();
        s.append(self.message.as_str());
        s
    }
}

/// The member of an object with the given key: the last one, where several
/// have it.
pub open spec fn member(fields: Seq<(String, Json)>, key: Seq<char>) -> Option<Json>
    decreases fields.len(),
{
    if fields.len() == 0 {
        None
    } else if fields.last().0@ == key {
        Some(fields.last().1)
    } else {
        member(fields.drop_last(), key)
    }
}

pub open spec fn key_missing(key: Seq<char>, path: Seq<char>) -> JsonFailure {
    JsonFailure {
        kind: JsonErrorKind::KeyMissing,
        message: "'"@ + key + "' not found in object at path '"@ + path + "'"@,
    }
}

pub open spec fn index_parse(key: Seq<char>, path: Seq<char>) -> JsonFailure {
    JsonFailure {
        kind: JsonErrorKind::IndexParse,
        message: "key '"@ + key + "' cannot parse to an index at path '"@ + path + "'"@,
    }
}

pub open spec fn index_out_of_bounds(index: nat) -> JsonFailure {
    JsonFailure {
        kind: JsonErrorKind::IndexOutOfBounds,
        message: "array index "@ + decimal(index) + " out of bounds"@,
    }
}

pub open spec fn not_a_container(key: Seq<char>, path: Seq<char>) -> JsonFailure {
    JsonFailure {
        kind: JsonErrorKind::NotAContainer,
        message: "key '"@ + key + "' cannot descend into non-container value at path '"@ + path
            + "'"@,
    }
}

pub open spec fn not_deserializable(path: Seq<char>) -> JsonFailure {
    JsonFailure {
        kind: JsonErrorKind::Deserialize,
        message: "failed to deserialize value at path '"@ + path + "'"@,
    }
}

/// One step of a lookup: the child of `v` that the non-empty segment `key`
/// selects. In an object the segment is a key; in an array it is an index,
/// written as an unsigned decimal number that fits in 64 bits.
pub open spec fn descend(v: Json, key: Seq<char>, path: Seq<char>) -> Result<Json, JsonFailure> {
    match v {
        Json::Object(fields) => match member(fields@, key) {
            Some(child) => Ok(child),
            None => Err(key_missing(key, path)),
        },
        Json::Array(items) => match unsigned_value(key) {
            Some(n) => if n > u64::MAX {
                Err(index_parse(key, path))
            } else if n < items@.len() {
                Ok(items@[n as int])
            } else {
                Err(index_out_of_bounds(n))
            },
            None => Err(index_parse(key, path)),
        },
        _ => Err(not_a_container(key, path)),
    }
}

/// The value reached from `v` by taking the segments in turn; empty
/// segments are passed over.
pub open spec fn walk(v: Json, segments: Seq<Seq<char>>, path: Seq<char>) -> Result<
    Json,
    JsonFailure,
>
    decreases segments.len(),
{
    if segments.len() == 0 {
        Ok(v)
    } else if segments[0].len() == 0 {
        walk(v, segments.skip(1), path)
    } else {
        match descend(v, segments[0], path) {
            Ok(child) => walk(child, segments.skip(1), path),
            Err(f) => Err(f),
        }
    }
}

/// The value that the dot-separated `path` reaches from `v`.
pub open spec fn lookup(v: Json, path: Seq<char>) -> Result<Json, JsonFailure> {
    walk(v, split(path, '.'), path)
}

/// The text that a value holds, where it is a string.
pub open spec fn text_of(v: Json) -> Option<Seq<char>> {
    match v {
        Json::Text(s) => Some(s@),
        _ => None,
    }
}

/// The unsigned integer that a value holds, where it is one.
pub open spec fn u64_of(v: Json) -> Option<u64> {
    match v {
        Json::Number(JsonNumber::PosInt(n)) => Some(n),
        Json::Number(JsonNumber::NegInt(n)) => if n >= 0 {
            Some(n as u64)
        } else {
            None
        },
        _ => None,
    }
}

/// The signed integer that a value holds, where it is one.
pub open spec fn i64_of(v: Json) -> Option<i64> {
    match v {
        Json::Number(JsonNumber::PosInt(n)) => if n <= i64::MAX {
            Some(n as i64)
        } else {
            None
        },
        Json::Number(JsonNumber::NegInt(n)) => Some(n),
        _ => None,
    }
}

/// The string that `path` reaches from `v`.
pub open spec fn lookup_text(v: Json, path: Seq<char>) -> Result<Seq<char>, JsonFailure> {
    match lookup(v, path) {
        Ok(found) => match text_of(found) {
            Some(t) => Ok(t),
            None => Err(not_deserializable(path)),
        },
        Err(f) => Err(f),
    }
}

/// The unsigned integer that `path` reaches from `v`.
pub open spec fn lookup_u64(v: Json, path: Seq<char>) -> Result<u64, JsonFailure> {
    match lookup(v, path) {
        Ok(found) => match u64_of(found) {
            Some(n) => Ok(n),
            None => Err(not_deserializable(path)),
        },
        Err(f) => Err(f),
    }
}

/// The signed integer that `path` reaches from `v`.
pub open spec fn lookup_i64(v: Json, path: Seq<char>) -> Result<i64, JsonFailure> {
    match lookup(v, path) {
        Ok(found) => match i64_of(found) {
            Some(n) => Ok(n),
            None => Err(not_deserializable(path)),
        },
        Err(f) => Err(f),
    }
}

fn error_key_missing(key: &str, path: &str) -> (e: JsonExtractError)
    ensures
        e.reports(key_missing(key@, path@)),
{
    let mut m = "'".to_owned();
    m.append(key);
    m.append("' not found in object at path '");
    m.append(path);
    m.append("'");
    JsonExtractError { message: m, status: ErrorStatus::Permanent, kind: JsonErrorKind::KeyMissing }
}

fn error_index_parse(key: &str, path: &str) -> (e: JsonExtractError)
    ensures
        e.reports(index_parse(key@, path@)),
{
    let mut m = "key '".to_owned();
    m.append(key);
    m.append("' cannot parse to an index at path '");
    m.append(path);
    m.append("'");
    JsonExtractError { message: m, status: ErrorStatus::Permanent, kind: JsonErrorKind::IndexParse }
}

fn error_out_of_bounds(index: u64) -> (e: JsonExtractError)
    ensures
        e.reports(index_out_of_bounds(index as nat)),
{
    let mut m = "array index ".to_owned();
    let digits = decimal_string(index);
    m.append(digits.as_str());
    m.append(" out of bounds");
    JsonExtractError {
        message: m,
        status: ErrorStatus::Permanent,
        kind: JsonErrorKind::IndexOutOfBounds,
    }
}

fn error_not_a_container(key: &str, path: &str) -> (e: JsonExtractError)
    ensures
        e.reports(not_a_container(key@, path@)),
{
    let mut m = "key '".to_owned();
    m.append(key);
    m.append("' cannot descend into non-container value at path '");
    m.append(path);
    m.append("'");
    JsonExtractError {
        message: m,
        status: ErrorStatus::Permanent,
        kind: JsonErrorKind::NotAContainer,
    }
}

fn error_not_deserializable(path: &str) -> (e: JsonExtractError)
    ensures
        e.reports(not_deserializable(path@)),
{
    let mut m = "failed to deserialize value at path '".to_owned();
    m.append(path);
    m.append("'");
    JsonExtractError {
        message: m,
        status: ErrorStatus::Permanent,
        kind: JsonErrorKind::Deserialize,
    }
}

impl Json {
    /// The member of this object with the given key; `None` where this is no
    /// object or has no such member.
    pub fn get(&self, key: &str) -> (r: Option<&Json>)
        ensures
            match *self {
                Json::Object(fields) => match member(fields@, key@) {
                    Some(child) => r == Some(&child),
                    None => r is None,
                },
                _ => r is None,
            },
    {
        match self {
            Json::Object(fields) => {
                let mut i: usize = fields.len();
                proof {
                    assert(fields@.take(i as int) =~= fields@);
                }
                while i > 0
                    invariant
                        i <= fields.len(),
                        *self == Json::Object(*fields),
                        member(fields@, key@) == member(fields@.take(i as int), key@),
                    decreases i,
                {
                    proof {
                        assert(fields@.take(i as int).drop_last() =~= fields@.take(i - 1));
                    }
                    let same = str_eq(fields[i - 1].0.as_str(), key);
                    if same {
                        return Some(&fields[i - 1].1);
                    }
                    i -= 1;
                }
                None
            },
            _ => None,
        }
    }

    /// The items of this array; `None` where this is no array.
    pub fn as_array(&self) -> (r: Option<&Vec<Json>>)
        ensures
            match *self {
                Json::Array(items) => r == Some(&items),
                _ => r is None,
            },
    {
        match self {
            Json::Array(items) => Some(items),
            _ => None,
        }
    }

    /// The text of this string; `None` where this is no string.
    pub fn as_text(&self) -> (r: Option<&String>)
        ensures
            match text_of(*self) {
                Some(t) => r matches Some(s) && s@ == t,
                None => r is None,
            },
    {
        match self {
            Json::Text(s) => Some(s),
            _ => None,
        }
    }

    /// This value as an unsigned integer; `None` where it is none.
    pub fn as_u64(&self) -> (r: Option<u64>)
        ensures
            r == u64_of(*self),
    {
        match self {
            Json::Number(JsonNumber::PosInt(n)) => Some(*n),
            Json::Number(JsonNumber::NegInt(n)) => if *n >= 0 {
                Some(*n as u64)
            } else {
                None
            },
            _ => None,
        }
    }

    /// This value as a signed integer; `None` where it is none.
    pub fn as_i64(&self) -> (r: Option<i64>)
        ensures
            r == i64_of(*self),
    {
        match self {
            Json::Number(JsonNumber::PosInt(n)) => if *n <= 0x7fff_ffff_ffff_ffff {
                Some(*n as i64)
            } else {
                None
            },
            Json::Number(JsonNumber::NegInt(n)) => Some(*n),
            _ => None,
        }
    }
}

/// One step of a lookup.
fn descend_into<'a>(v: &'a Json, key: &str, path: &str) -> (r: Result<&'a Json, JsonExtractError>)
    ensures
        match descend(*v, key@, path@) {
            Ok(child) => r == Ok::<&Json, JsonExtractError>(&child),
            Err(f) => r matches Err(e) && e.reports(f),
        },
{
    match v {
        Json::Object(_) => match v.get(key) {
            Some(child) => Ok(child),
            None => Err(error_key_missing(key, path)),
        },
        Json::Array(items) => match parse_u64(key) {
            Some(n) => {
                if n < items.len() as u64 {
                    Ok(&items[n as usize])
                } else {
                    Err(error_out_of_bounds(n))
                }
            },
            None => Err(error_index_parse(key, path)),
        },
        _ => Err(error_not_a_container(key, path)),
    }
}

/// Follows the dot-separated `path` from `value` and returns the value it
/// reaches. The path is cut at every `.`; empty segments are passed over;
/// a segment selects a member of an object by key, or an item of an array
/// by index. The empty path reaches `value` itself.
///
/// Fails with `KeyMissing`, `IndexParse`, `IndexOutOfBounds` or
/// `NotAContainer` at the first segment that cannot be taken.
pub fn json_extract<'a>(value: &'a Json, path: &str) -> (r: Result<&'a Json, JsonExtractError>)
    ensures
        match lookup(*value, path@) {
            Ok(found) => r == Ok::<&Json, JsonExtractError>(&found),
            Err(f) => r matches Err(e) && e.reports(f),
        },
{
    let segments = split_at_char(path, '.');
    let ghost all = views(segments@);
    let mut current: &Json = value;
    let mut i: usize = 0;
    proof {
        assert(all.skip(0) =~= all);
    }
    while i < segments.len()
        invariant
            i <= segments.len(),
            all == views(segments@),
            all == split(path@, '.'),
            walk(*value, all, path@) == walk(*current, all.skip(i as int), path@),
        decreases segments.len() - i,
    {
        proof {
            assert(all.skip(i as int).skip(1) =~= all.skip(i + 1));
        }
        let key = segments[i].as_str();
        if key.unicode_len() > 0 {
            match descend_into(current, key, path) {
                Ok(child) => {
                    current = child;
                },
                Err(e) => {
                    return Err(e);
                },
            }
        }
        i += 1;
    }
    Ok(current)
}

/// The string that `path` reaches from `value`; `Deserialize` where it
/// reaches something else.
pub fn json_extract_string(value: &Json, path: &str) -> (r: Result<String, JsonExtractError>)
    ensures
        match lookup_text(*value, path@) {
            Ok(t) => r matches Ok(s) && s@ == t,
            Err(f) => r matches Err(e) && e.reports(f),
        },
{
    match json_extract(value, path) {
        Ok(found) => match found.as_text() {
            Some(s) => Ok(s.clone()),
            None => Err(error_not_deserializable(path)),
        },
        Err(e) => Err(e),
    }
}

/// The unsigned integer that `path` reaches from `value`; `Deserialize`
/// where it reaches something else.
pub fn json_extract_u64(value: &Json, path: &str) -> (r: Result<u64, JsonExtractError>)
    ensures
        match lookup_u64(*value, path@) {
            Ok(n) => r == Ok::<u64, JsonExtractError>(n),
            Err(f) => r matches Err(e) && e.reports(f),
        },
{
    match json_extract(value, path) {
        Ok(found) => match found.as_u64() {
            Some(n) => Ok(n),
            None => Err(error_not_deserializable(path)),
        },
        Err(e) => Err(e),
    }
}

/// The signed integer that `path` reaches from `value`; `Deserialize` where
/// it reaches something else.
pub fn json_extract_i64(value: &Json, path: &str) -> (r: Result<i64, JsonExtractError>)
    ensures
        match lookup_i64(*value, path@) {
            Ok(n) => r == Ok::<i64, JsonExtractError>(n),
            Err(f) => r matches Err(e) && e.reports(f),
        },
{
    match json_extract(value, path) {
        Ok(found) => match found.as_i64() {
            Some(n) => Ok(n),
            None => Err(error_not_deserializable(path)),
        },
        Err(e) => Err(e),
    }
}

/// What a walk reaches does not depend on the path that its errors would
/// name.
pub proof fn lemma_walk_reaches_the_same(
    v: Json,
    segments: Seq<Seq<char>>,
    path: Seq<char>,
    other: Seq<char>,
)
    ensures
        walk(v, segments, path) is Ok <==> walk(v, segments, other) is Ok,
        walk(v, segments, path) is Ok ==> walk(v, segments, other) == walk(v, segments, path),
    decreases segments.len(),
{
    if segments.len() > 0 {
        if segments[0].len() == 0 {
            lemma_walk_reaches_the_same(v, segments.skip(1), path, other);
        } else {
            match descend(v, segments[0], path) {
                Ok(child) => {
                    lemma_walk_reaches_the_same(child, segments.skip(1), path, other);
                },
                Err(_) => {
                    assert(descend(v, segments[0], other) is Err);
                },
            }
        }
    }
}

/// A walk along two runs of segments is a walk along the first and, from
/// what that reaches, a walk along the second.
pub proof fn lemma_walk_in_two(
    v: Json,
    first: Seq<Seq<char>>,
    second: Seq<Seq<char>>,
    path: Seq<char>,
)
    ensures
        walk(v, first + second, path) == match walk(v, first, path) {
            Ok(reached) => walk(reached, second, path),
            Err(f) => Err(f),
        },
    decreases first.len(),
{
    if first.len() == 0 {
        assert(first + second =~= second);
    } else {
        assert((first + second).skip(1) =~= first.skip(1) + second);
        if first[0].len() == 0 {
            lemma_walk_in_two(v, first.skip(1), second, path);
        } else {
            match descend(v, first[0], path) {
                Ok(child) => {
                    lemma_walk_in_two(child, first.skip(1), second, path);
                },
                Err(_) => {},
            }
        }
    }
}

/// A path of one segment reaches what the segment selects.
pub proof fn lemma_lookup_one_segment(v: Json, key: Seq<char>)
    requires
        key.len() > 0,
        !key.contains('.'),
    ensures
        lookup(v, key) == descend(v, key, key),
{
    lemma_split_without_separator(key, '.');
    let none = seq![key].skip(1);
    match descend(v, key, key) {
        Ok(child) => {
            assert(walk(child, none, key) == Ok::<Json, JsonFailure>(child));
        },
        Err(_) => {},
    }
}

/// The value that a path reaches is the value that a lookup along the
/// path gives: what `first` and `second` reach one after the other, the two
/// reach together when a dot joins them; and where either fails, so does
/// the joined path.
pub proof fn lemma_lookup_composes(v: Json, first: Seq<char>, second: Seq<char>)
    ensures
        match lookup(v, first) {
            Ok(reached) => match lookup(reached, second) {
                Ok(found) => lookup(v, first.push('.') + second) == Ok::<Json, JsonFailure>(found),
                Err(_) => lookup(v, first.push('.') + second) is Err,
            },
            Err(_) => lookup(v, first.push('.') + second) is Err,
        },
{
    let whole = first.push('.') + second;
    lemma_split_of_both(first, second, '.');
    lemma_walk_in_two(v, split(first, '.'), split(second, '.'), whole);
    lemma_walk_reaches_the_same(v, split(first, '.'), first, whole);
    match lookup(v, first) {
        Ok(reached) => {
            lemma_walk_reaches_the_same(reached, split(second, '.'), second, whole);
        },
        Err(_) => {},
    }
}

/// The outside type that a parsed JSON document is read from.
#[verifier::external_type_specification]
#[verifier::external_body]
pub struct ExValue(serde_json::Value);

/// The outside type that a parsed JSON number is read from.
#[verifier::external_type_specification]
#[verifier::external_body]
pub struct ExNumber(serde_json::Number);

/// The JSON value that `serde_json::from_slice` reads from the bytes of a
/// document; `None` where it refuses them.
pub uninterp spec fn json_of_bytes(bytes: Seq<u8>) -> Option<Json>;

/// `Number::as_u64`, `Number::as_i64` and the number's own printing tell a
/// `serde_json::Number` apart: a non-negative integer, a negative integer,
/// or neither.
#[verifier::external_body]
fn number_from(n: &serde_json::Number) -> JsonNumber {
    match (n.as_u64(), n.as_i64()) {
        (Some(u), _) => JsonNumber::PosInt(u),
        (None, Some(i)) => JsonNumber::NegInt(i),
        (None, None) => JsonNumber::Float(n.to_string()),
    }
}

/// A `serde_json::Value` written as a `Json`, variant by variant; the
/// members of an object come in the order in which its map walks them.
#[verifier::external_body]
fn json_from(v: &serde_json::Value) -> Json {
    match v {
        serde_json::Value::Null => Json::Null,
        serde_json::Value::Bool(b) => Json::Bool(*b),
        serde_json::Value::Number(n) => Json::Number(number_from(n)),
        serde_json::Value::String(s) => Json::Text(s.clone()),
        serde_json::Value::Array(a) => Json::Array(a.iter().map(json_from).collect()),
        serde_json::Value::Object(m) => Json::Object(
            m.iter().map(|(k, x)| (k.clone(), json_from(x))).collect(),
        ),
    }
}

/// `serde_json::from_slice` to a `serde_json::Value`. Claimed: the answer
/// depends on the bytes alone.
#[verifier::external_body]
fn read_json(bytes: &[u8]) -> (r: Option<Json>)
    ensures
        r == json_of_bytes(bytes@),
{
    match serde_json::from_slice::<serde_json::Value>(bytes) {
        Ok(v) => Some(json_from(&v)),
        Err(_) => None,
    }
}

/// Reads a JSON document. `None` where the bytes are no JSON document.
pub fn parse_json(bytes: &[u8]) -> (r: Option<Json>)
    ensures
        r == json_of_bytes(bytes@),
{
    read_json(bytes)
}

} // verus!
