//! The state of an entity: one field on the wire, four shapes in it.
//!
//! The hub does not say which shape it sends, and it often sends a number or
//! a boolean as a string. A state is therefore read in two steps: first by the
//! JSON type of the value, then, for a string, by what its text looks like:
//! a boolean, else an integer, else a decimal, else plain text.

use vstd::prelude::*;
use vstd::std_specs::cmp::PartialEqSpecImpl;
use crate::errors::{decoded, failure, DecodeError, DecodeErrorKind, DecodeFailure};
use crate::json::{Json, JsonValue, Number};
use crate::scalar::{
    decimal_text,
    lemma_decimal_text_parses,
    parse_bool,
    parse_i64,
    parsed_bool,
    parsed_i64,
};

verus! {

/// The state of an entity. A decimal is held by the 64 bits of its IEEE 754
/// binary64 form.
#[derive(Clone, Debug)]
pub enum StateEnum {
    Integer(i64),
    Decimal(u64),
    Boolean(bool),
    String(String),
}

/// A [`StateEnum`] as plain values.
pub enum StateValue {
    Integer(i64),
    Decimal(u64),
    Boolean(bool),
    String(Seq<char>),
}

impl DeepView for StateEnum {
    type V = StateValue;

    open spec fn deep_view(&self) -> StateValue {
        match self {
            StateEnum::Integer(v) => StateValue::Integer(*v),
            StateEnum::Decimal(bits) => StateValue::Decimal(*bits),
            StateEnum::Boolean(v) => StateValue::Boolean(*v),
            StateEnum::String(text) => StateValue::String(text@),
        }
    }
}

/// The signed integer with the same 64 bits as `v`: `v` itself where it
/// fits, else `v` less two to the 64th.
pub open spec fn reinterpreted(v: u64) -> i64 {
    if v <= i64::MAX {
        v as i64
    } else {
        (v - 0x1_0000_0000_0000_0000) as i64
    }
}

/// The state that a JSON number stands for: an integer token gives an
/// integer, reinterpreted where it needs the 64th bit, and a floating token
/// gives a decimal.
pub open spec fn number_state(n: Number) -> StateValue {
    match n {
        Number::Integer(v) => StateValue::Integer(v),
        Number::Unsigned(v) => StateValue::Integer(reinterpreted(v)),
        Number::Decimal(bits) => StateValue::Decimal(bits),
    }
}

/// The state that a text stands for, given the decimal it reads as, if any:
/// a boolean before an integer, an integer before a decimal, and the text
/// itself where it is none of them.
pub open spec fn text_state(text: Seq<char>, decimal: Option<u64>) -> StateValue {
    match parsed_bool(text) {
        Some(v) => StateValue::Boolean(v),
        None => match parsed_i64(text) {
            Some(v) => StateValue::Integer(v),
            None => match decimal {
                Some(bits) => StateValue::Decimal(bits),
                None => StateValue::String(text),
            },
        },
    }
}

/// The state that a JSON value stands for. Null, arrays and objects stand
/// for none.
pub open spec fn json_state(json: JsonValue) -> Result<StateValue, DecodeFailure> {
    match json {
        JsonValue::Bool(v) => Ok(StateValue::Boolean(v)),
        JsonValue::Number(n) => Ok(number_state(n)),
        JsonValue::String(text, decimal) => Ok(text_state(text, decimal)),
        _ => Err(failure(DecodeErrorKind::InvalidType, Seq::empty())),
    }
}

/// A JSON boolean is read as that boolean. So are the strings `true` and
/// `false`, whatever else their text may read as.
pub proof fn lemma_boolean_states(b: bool, decimal: Option<u64>)
    ensures
        json_state(JsonValue::Bool(b)) == Ok::<StateValue, DecodeFailure>(StateValue::Boolean(b)),
        json_state(JsonValue::String("true"@, decimal)) == Ok::<StateValue, DecodeFailure>(
            StateValue::Boolean(true),
        ),
        json_state(JsonValue::String("false"@, decimal)) == Ok::<StateValue, DecodeFailure>(
            StateValue::Boolean(false),
        ),
{
    reveal_strlit("true");
    reveal_strlit("false");
    assert("true"@ != "false"@) by {
    }
}

/// A JSON integer that fits in 64 signed bits is read as that integer. So is
/// the string that holds its decimal text, whatever else the text may read as.
pub proof fn lemma_integer_states(n: i64, decimal: Option<u64>)
    ensures
        json_state(JsonValue::Number(Number::Integer(n))) == Ok::<StateValue, DecodeFailure>(
            StateValue::Integer(n),
        ),
        json_state(JsonValue::String(decimal_text(n as int), decimal)) == Ok::<
            StateValue,
            DecodeFailure,
        >(StateValue::Integer(n)),
{
    lemma_decimal_text_parses(n);
}

/// A JSON integer beyond the signed range is read as the signed integer
/// with the same 64 bits, which is negative.
pub proof fn lemma_unsigned_states(v: u64)
    requires
        v > i64::MAX,
    ensures
        json_state(JsonValue::Number(Number::Unsigned(v))) == Ok::<StateValue, DecodeFailure>(
            StateValue::Integer((v - 0x1_0000_0000_0000_0000) as i64),
        ),
        v - 0x1_0000_0000_0000_0000 < 0,
{
}

/// A JSON floating-point number is read as that decimal. So is a string
/// whose text reads as a decimal, unless the text is a boolean or an integer
/// first.
pub proof fn lemma_decimal_states(bits: u64, text: Seq<char>)
    ensures
        json_state(JsonValue::Number(Number::Decimal(bits))) == Ok::<StateValue, DecodeFailure>(
            StateValue::Decimal(bits),
        ),
        parsed_bool(text) is None && parsed_i64(text) is None ==> json_state(
            JsonValue::String(text, Some(bits)),
        ) == Ok::<StateValue, DecodeFailure>(StateValue::Decimal(bits)),
{
}

/// A string whose text is no boolean, no integer and no decimal is read as
/// that text, unchanged.
pub proof fn lemma_text_states(text: Seq<char>)
    requires
        parsed_bool(text) is None,
        parsed_i64(text) is None,
    ensures
        json_state(JsonValue::String(text, None)) == Ok::<StateValue, DecodeFailure>(
            StateValue::String(text),
        ),
{
}

/// Null is no state: where a state must be there, null is refused as of the
/// wrong type.
pub proof fn lemma_null_is_no_state()
    ensures
        json_state(JsonValue::Null) == Err::<StateValue, DecodeFailure>(
            failure(DecodeErrorKind::InvalidType, Seq::empty()),
        ),
{
}

/// Arrays and objects are no states: both are refused as of the wrong type,
/// whatever they hold.
pub proof fn lemma_containers_are_no_states(
    items: Seq<JsonValue>,
    members: Seq<(Seq<char>, JsonValue)>,
)
    ensures
        json_state(JsonValue::Array(items)) == Err::<StateValue, DecodeFailure>(
            failure(DecodeErrorKind::InvalidType, Seq::empty()),
        ),
        json_state(JsonValue::Object(members)) == Err::<StateValue, DecodeFailure>(
            failure(DecodeErrorKind::InvalidType, Seq::empty()),
        ),
{
}

impl StateEnum {
    /// The state for a JSON boolean.
    pub fn from_bool(v: bool) -> (r: StateEnum)
        ensures
            r.deep_view() == StateValue::Boolean(v),
    {
        StateEnum::Boolean(v)
    }

    /// The state for a signed integer.
    pub fn from_i64(v: i64) -> (r: StateEnum)
        ensures
            r.deep_view() == StateValue::Integer(v),
    {
        StateEnum::Integer(v)
    }

    /// The state for an unsigned integer. A value beyond the signed range
    /// keeps its bits and so turns negative.
    pub fn from_u64(v: u64) -> (r: StateEnum)
        ensures
            r.deep_view() == StateValue::Integer(reinterpreted(v)),
    {
        if v <= 0x7fff_ffff_ffff_ffff {
            StateEnum::Integer(v as i64)
        } else {
            let low: i64 = (v - 0x8000_0000_0000_0000) as i64;
            StateEnum::Integer(low + i64::MIN)
        }
    }

    /// The state for a floating-point number, given by its bits.
    pub fn from_decimal(bits: u64) -> (r: StateEnum)
        ensures
            r.deep_view() == StateValue::Decimal(bits),
    {
        StateEnum::Decimal(bits)
    }

    /// The state for a JSON number.
    pub fn from_number(n: Number) -> (r: StateEnum)
        ensures
            r.deep_view() == number_state(n),
    {
        match n {
            Number::Integer(v) => StateEnum::from_i64(v),
            Number::Unsigned(v) => StateEnum::from_u64(v),
            Number::Decimal(bits) => StateEnum::from_decimal(bits),
        }
    }

    /// The state for a JSON string. `decimal` is what reading the text as a
    /// floating-point number gave: its bits, or nothing where it is none.
    ///
    /// The text is tried as a boolean first, then as an integer; only then
    /// does the decimal count, and a text that is none of the three is kept
    /// as it is.
    pub fn from_text(text: &str, decimal: Option<u64>) -> (r: StateEnum)
        ensures
            r.deep_view() == text_state(text@, decimal),
    {
        if let Some(bool_value) = parse_bool(text) {
            return StateEnum::Boolean(bool_value);
        }
        if let Some(int_value) = parse_i64(text) {
            return StateEnum::Integer(int_value);
        }
        if let Some(bits) = decimal {
            return StateEnum::Decimal(bits);
        }
        StateEnum::String(String::from_str(text))
    }

    /// Reads a state from a JSON value. A boolean, a number and a string
    /// each give a state; null, an array and an object are refused as of the
    /// wrong type.
    pub fn from_json(json: &Json) -> (r: Result<StateEnum, DecodeError>)
        ensures
            decoded(r) == json_state(json.deep_view()),
    {
        match json {
            Json::Bool(v) => Ok(StateEnum::from_bool(*v)),
            Json::Number(n) => Ok(StateEnum::from_number(*n)),
            Json::String(text, decimal) => Ok(StateEnum::from_text(text.as_str(), *decimal)),
            _ => Err(DecodeError::new(DecodeErrorKind::InvalidType)),
        }
    }
}

/// Two states are equal when they are of the same case and hold the same
/// value; decimals are compared by their bits.
impl PartialEq for StateEnum {
    fn eq(&self, other: &StateEnum) -> (r: bool) {
        match (self, other) {
            (StateEnum::Integer(x), StateEnum::Integer(y)) => *x == *y,
            (StateEnum::Decimal(x), StateEnum::Decimal(y)) => *x == *y,
            (StateEnum::Boolean(x), StateEnum::Boolean(y)) => *x == *y,
            (StateEnum::String(x), StateEnum::String(y)) => *x == *y,
            _ => false,
        }
    }
}

impl Eq for StateEnum {

}

impl PartialEqSpecImpl for StateEnum {
    open spec fn obeys_eq_spec() -> bool {
        true
    }

    open spec fn eq_spec(&self, other: &StateEnum) -> bool {
        self.deep_view() == other.deep_view()
    }
}

} // verus!
