//! The JSON parameter text of one invocation, read through serde_json.
use vstd::prelude::*;
use crate::text::{blank, is_blank};

verus! {

#[verifier::external_type_specification]
#[verifier::external_body]
pub struct ExJsonValue(serde_json::Value);

/// Why a parameter text was refused before any side effect.
#[derive(Clone, Copy, Debug, PartialEq, Eq, Structural)]
pub enum ParamError {
    MalformedJson,
    MissingTargetTime,
    InvalidTimeFormat,
    InvalidHour,
    InvalidMinute,
    UnresolvableLocalTime,
    /// The system clock could not be read as a local date.
    ClockUnavailable,
    MissingProgram,
    MissingUrl,
    MissingProcessName,
    UnknownPowerAction,
}

/// What one member of a JSON object is, as the actions read it.
pub enum Field {
    Absent,
    Text(Seq<char>),
    Unsigned(u64),
    Flag(bool),
    Other,
}

/// One member of the parameter object.
#[derive(Debug)]
pub enum ParamField {
    /// No such member, or the text is not an object.
    Absent,
    /// A JSON string.
    Text(String),
    /// A JSON integer in the range of `u64`.
    Unsigned(u64),
    /// A JSON boolean.
    Flag(bool),
    /// Any other JSON value.
    Other,
}

impl View for ParamField {
    type V = Field;

    open spec fn view(&self) -> Field {
        match self {
            ParamField::Absent => Field::Absent,
            ParamField::Text(s) => Field::Text(s@),
            ParamField::Unsigned(n) => Field::Unsigned(*n),
            ParamField::Flag(b) => Field::Flag(*b),
            ParamField::Other => Field::Other,
        }
    }
}

/// Whether serde_json reads `text` as one JSON value.
pub uninterp spec fn json_accepts(text: Seq<char>) -> bool;

/// The member `key` of the value that serde_json reads from `text`.
pub uninterp spec fn json_member(text: Seq<char>, key: Seq<char>) -> Field;

/// A parameter text together with the JSON value read from it.
pub struct ParamDoc {
    source: Ghost<Seq<char>>,
    value: serde_json::Value,
}

impl ParamDoc {
    /// The text that this value was read from.
    pub closed spec fn source(&self) -> Seq<char> {
        self.source@
    }

    /// Relies on serde_json::from_str::<Value>, which reads `text` as one
    /// JSON value or reports an error; the outcome depends on the text alone.
    /// The value read is kept beside the text it came from.
    #[verifier::external_body]
    pub(crate) fn parse(text: &str) -> (r: Option<ParamDoc>)
        ensures
            r is Some <==> json_accepts(text@),
            r matches Some(d) ==> d.source() == text@,
    {
        match serde_json::from_str::<serde_json::Value>(text) {
            Ok(value) => Some(ParamDoc { source: Ghost(text@), value }),
            Err(_) => None,
        }
    }
}

/// Relies on serde_json::Value::get, which finds a member of an object by
/// its key and finds nothing in any other value, and on
/// serde_json::Number::as_u64, which gives the integers that fit in `u64`.
/// The value was read from `doc.source()`, so the member depends on that
/// text and the key alone.
#[verifier::external_body]
pub(crate) fn member_of(doc: &ParamDoc, key: &str) -> (r: ParamField)
    ensures
        r@ == json_member(doc.source(), key@),
{
    match doc.value.get(key) {
        None => ParamField::Absent,
        Some(serde_json::Value::String(s)) => ParamField::Text(s.clone()),
        Some(serde_json::Value::Bool(b)) => ParamField::Flag(*b),
        Some(serde_json::Value::Number(n)) => match n.as_u64() {
            Some(u) => ParamField::Unsigned(u),
            None => ParamField::Other,
        },
        Some(_) => ParamField::Other,
    }
}

/// The member `key` when it is a JSON string.
pub open spec fn text_member(text: Seq<char>, key: Seq<char>) -> Option<Seq<char>> {
    match json_member(text, key) {
        Field::Text(s) => Some(s),
        _ => None,
    }
}

/// The member `key` when it is a JSON string that is not blank.
pub open spec fn filled_member(text: Seq<char>, key: Seq<char>) -> Option<Seq<char>> {
    match text_member(text, key) {
        Some(s) => if is_blank(s) {
            None
        } else {
            Some(s)
        },
        None => None,
    }
}

/// The member `key` when it is a JSON boolean, else `default`.
pub open spec fn flag_member(text: Seq<char>, key: Seq<char>, default: bool) -> bool {
    match json_member(text, key) {
        Field::Flag(b) => b,
        _ => default,
    }
}

pub fn text_field(doc: &ParamDoc, key: &str) -> (r: Option<String>)
    ensures
        r matches Some(s) ==> text_member(doc.source(), key@) == Some(s@),
        r is None ==> text_member(doc.source(), key@) is None,
{
    match member_of(doc, key) {
        ParamField::Text(s) => Some(s),
        _ => None,
    }
}

pub fn filled_field(doc: &ParamDoc, key: &str) -> (r: Option<String>)
    ensures
        r matches Some(s) ==> filled_member(doc.source(), key@) == Some(s@),
        r is None ==> filled_member(doc.source(), key@) is None,
{
    match text_field(doc, key) {
        Some(s) => if blank(s.as_str()) {
            None
        } else {
            Some(s)
        },
        None => None,
    }
}

pub fn flag_field(doc: &ParamDoc, key: &str, default: bool) -> (r: bool)
    ensures
        r == flag_member(doc.source(), key@, default),
{
    match member_of(doc, key) {
        ParamField::Flag(b) => b,
        _ => default,
    }
}

} // verus!
