//! Writing timestamps as the hub expects them in a payload.

use vstd::prelude::*;
use crate::datetime::Timestamp;
use crate::get::timestamp_text;

verus! {

/// The text to write for a timestamp: its RFC 3339 form in its own offset.
pub fn serialize_datetime(date: &Timestamp) -> (r: String)
    ensures
        r@ == timestamp_text(*date),
{
    date.to_rfc3339()
}

/// The text to write for a timestamp that may be absent; `None` stands for
/// a JSON null.
pub fn serialize_optional_datetime(date: &Option<Timestamp>) -> (r: Option<String>)
    ensures
        match (r, *date) {
            (Some(text), Some(value)) => text@ == timestamp_text(value),
            (None, None) => true,
            _ => false,
        },
{
    match date {
        None => None,
        Some(value) => Some(serialize_datetime(value)),
    }
}

} // verus!
