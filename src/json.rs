use vstd::prelude::*;

verus! {

/// A JSON value, as the document decoder reads it.
///
/// Numbers that are neither a `u64` nor an `i64` are kept as their decimal
/// text, so that no precision is lost on the way through.
#[derive(Debug)]
pub enum Json {
    Null,
    Bool(bool),
    UInt(u64),
    NegInt(i64),
    Real(String),
    Str(String),
    Array(Vec<Json>),
    Object(Vec<(String, Json)>),
}

/// Why JSON text could not be read.
#[derive(Debug)]
pub enum SyntaxError {
    /// The text is not well-formed JSON; the message is the parser's.
    Malformed(String),
    /// The text nests arrays and objects deeper than the reader follows.
    TooDeep,
}

/// How deep the reader follows nested arrays and objects: the bound that
/// serde_json's parser keeps by default, so that no value it hands out is
/// refused here.
pub const MAX_DEPTH: u32 = 128;

/// The value that serde_json reads from a text, in this crate's model; `None`
/// where the text is not JSON.
pub uninterp spec fn json_of(text: Seq<char>) -> Option<Json>;

/// A parsed JSON value of serde_json, carried through opaque.
#[verifier::external_type_specification]
#[verifier::external_body]
pub struct ExValue(serde_json::Value);

/// A JSON number of serde_json, carried through opaque.
#[verifier::external_type_specification]
#[verifier::external_body]
pub struct ExNumber(serde_json::Number);

/// A parse error of serde_json, carried through opaque.
#[verifier::external_type_specification]
#[verifier::external_body]
pub struct ExError(serde_json::Error);

/// One level of a parsed JSON value: its kind and its immediate payload.
pub enum ValueParts {
    Null,
    Bool(bool),
    Number(serde_json::Number),
    Str(String),
    Array(Vec<serde_json::Value>),
    Object(Vec<(String, serde_json::Value)>),
}

/// Relies on serde_json::from_str to parse JSON text into a `Value`.
#[verifier::external_body]
fn parse_value(text: &str) -> (r: Result<serde_json::Value, serde_json::Error>) {
    serde_json::from_str::<serde_json::Value>(text)
}

/// Relies on serde_json::Error's `Display` impl for the parser's message.
#[verifier::external_body]
fn error_message(e: &serde_json::Error) -> (r: String) {
    e.to_string()
}

/// Relies on the variants of serde_json::Value: tells them apart and moves
/// their payload out; an object's entries come out in the map's order.
#[verifier::external_body]
fn value_parts(v: serde_json::Value) -> (r: ValueParts) {
    match v {
        serde_json::Value::Null => ValueParts::Null,
        serde_json::Value::Bool(b) => ValueParts::Bool(b),
        serde_json::Value::Number(n) => ValueParts::Number(n),
        serde_json::Value::String(s) => ValueParts::Str(s),
        serde_json::Value::Array(a) => ValueParts::Array(a),
        serde_json::Value::Object(m) => ValueParts::Object(m.into_iter().collect()),
    }
}

/// Relies on serde_json::Number::as_u64 to read a number that is a `u64`;
/// nothing is claimed of which numbers those are.
pub assume_specification[ serde_json::Number::as_u64 ](n: &serde_json::Number) -> Option<u64>;

/// Relies on serde_json::Number::as_i64 to read a number that is an `i64`;
/// nothing is claimed of which numbers those are.
pub assume_specification[ serde_json::Number::as_i64 ](n: &serde_json::Number) -> Option<i64>;

/// Relies on serde_json::Number's `Display` impl for a number's decimal text.
#[verifier::external_body]
fn number_text(n: &serde_json::Number) -> (r: String) {
    n.to_string()
}

/// A parsed number, as an unsigned integer where it is one, else as a
/// negative integer where it is one, else as its decimal text.
fn number_to_json(n: &serde_json::Number) -> (r: Json)
    ensures
        r is UInt || r is NegInt || r is Real,
{
    match n.as_u64() {
        Some(u) => Json::UInt(u),
        None => match n.as_i64() {
            Some(i) => Json::NegInt(i),
            None => Json::Real(number_text(n)),
        },
    }
}

/// A parsed value in this crate's model, following at most `depth` levels
/// of nesting.
fn value_to_json(v: serde_json::Value, depth: u32) -> (r: Result<Json, SyntaxError>)
    decreases depth,
{
    match value_parts(v) {
        ValueParts::Null => Ok(Json::Null),
        ValueParts::Bool(b) => Ok(Json::Bool(b)),
        ValueParts::Number(n) => Ok(number_to_json(&n)),
        ValueParts::Str(s) => Ok(Json::Str(s)),
        ValueParts::Array(items) => {
            if depth == 0 {
                return Err(SyntaxError::TooDeep);
            }
            let mut out: Vec<Json> = Vec::new();
            let mut rest = items;
            while rest.len() > 0
                invariant
                    depth > 0,
                decreases rest.len(),
            {
                let item = rest.remove(0);
                match value_to_json(item, depth - 1) {
                    Ok(j) => out.push(j),
                    Err(e) => return Err(e),
                }
            }
            Ok(Json::Array(out))
        },
        ValueParts::Object(entries) => {
            if depth == 0 {
                return Err(SyntaxError::TooDeep);
            }
            let mut out: Vec<(String, Json)> = Vec::new();
            let mut rest = entries;
            while rest.len() > 0
                invariant
                    depth > 0,
                decreases rest.len(),
            {
                let (k, item) = rest.remove(0);
                match value_to_json(item, depth - 1) {
                    Ok(j) => out.push((k, j)),
                    Err(e) => return Err(e),
                }
            }
            Ok(Json::Object(out))
        },
    }
}

/// Relies on serde_json::from_str to parse JSON text into a `Value`, which
/// depends on the text alone; the value is then taken into this crate's model
/// by `value_to_json`.
#[verifier::external_body]
fn parse_json(text: &str) -> (r: Option<Json>)
    ensures
        r == json_of(text@),
{
    serde_json::from_str::<serde_json::Value>(text).ok().and_then(|v| value_to_json(v, MAX_DEPTH).ok())
}

/// Reads JSON text into a [`Json`] value.
///
/// Objects keep their entries in the order of the text; where a name is
/// given twice, the parser keeps the last value, at the place of the first.
pub fn parse(text: &str) -> (r: Result<Json, SyntaxError>)
    ensures
        r is Ok <==> json_of(text@) is Some,
        r matches Ok(j) ==> json_of(text@) == Some(j),
{
    match parse_json(text) {
        Some(j) => Ok(j),
        None => match parse_value(text) {
            Err(e) => Err(SyntaxError::Malformed(error_message(&e))),
            Ok(_) => Err(SyntaxError::TooDeep),
        },
    }
}

} // verus!
