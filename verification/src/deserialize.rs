//! Reading JSON values into typed values.
//!
//! Every type that can be read from a reply implements [`Decode`]. A record
//! is read member by member with [`required`] and [`optional`]; a failure
//! deep inside a reply comes out with the path that leads to it.

use vstd::prelude::*;
use crate::datetime::{plain_date, rfc3339_parsed, Instant, PlainDate, Timestamp};
use crate::errors::{
    decoded,
    failure,
    failure_within,
    DecodeError,
    DecodeErrorKind,
    DecodeFailure,
    Step,
};
use crate::json::{
    distinct_keys,
    lemma_put_absent,
    lemma_put_found,
    member,
    merged,
    put,
    Json,
    JsonValue,
    Number,
};
use crate::state_enum::{json_state, StateEnum};
use crate::text::str_eq;

verus! {

/// A type that can be read from a JSON value.
pub trait Decode: Sized + DeepView {
    /// What reading `json` gives: the value, or where and why reading fails.
    spec fn decoding(json: JsonValue) -> Result<<Self as DeepView>::V, DecodeFailure>;

    /// Reads a value of this type from `json`.
    fn decode(json: &Json) -> (r: Result<Self, DecodeError>)
        ensures
            decoded(r) == Self::decoding(json.deep_view()),
    ;
}

/// The failure to read a value of the wrong JSON type.
pub open spec fn invalid_type() -> DecodeFailure {
    failure(DecodeErrorKind::InvalidType, Seq::empty())
}

/// A text is read from a JSON string, and from nothing else.
pub open spec fn json_text(json: JsonValue) -> Result<Seq<char>, DecodeFailure> {
    match json {
        JsonValue::String(text, _) => Ok(text),
        _ => Err(invalid_type()),
    }
}

/// A 32-bit integer is read from an integer token that fits, and from
/// nothing else.
pub open spec fn json_i32(json: JsonValue) -> Result<i32, DecodeFailure> {
    match json {
        JsonValue::Number(Number::Integer(v)) => if i32::MIN <= v <= i32::MAX {
            Ok(v as i32)
        } else {
            Err(invalid_type())
        },
        _ => Err(invalid_type()),
    }
}

/// A number is read from any number token, and from nothing else.
pub open spec fn json_number(json: JsonValue) -> Result<Number, DecodeFailure> {
    match json {
        JsonValue::Number(n) => Ok(n),
        _ => Err(invalid_type()),
    }
}

/// A timestamp is read from a JSON string that holds an RFC 3339 text. A
/// string with another text fails with that text; a value of another type,
/// a number too, fails as of the wrong type.
pub open spec fn json_timestamp(json: JsonValue) -> Result<Instant, DecodeFailure> {
    match json {
        JsonValue::String(text, _) => match rfc3339_parsed(text) {
            Some(at) => Ok(at),
            None => Err(failure(DecodeErrorKind::InvalidTimestamp, text)),
        },
        _ => Err(invalid_type()),
    }
}

/// A plain date is read from a JSON string of the form `YYYY-MM-DD`, and
/// from no other string.
pub open spec fn json_date(json: JsonValue) -> Result<PlainDate, DecodeFailure> {
    match json {
        JsonValue::String(text, _) => match plain_date(text) {
            Some(on) => Ok(on),
            None => Err(failure(DecodeErrorKind::InvalidDate, text)),
        },
        _ => Err(invalid_type()),
    }
}

/// Where a value may be absent, null is read as absence and every other
/// value as `read` reads it.
pub open spec fn json_optional<V>(json: JsonValue, read: Result<V, DecodeFailure>) -> Result<
    Option<V>,
    DecodeFailure,
> {
    match json {
        JsonValue::Null => Ok(None),
        _ => match read {
            Ok(value) => Ok(Some(value)),
            Err(e) => Err(e),
        },
    }
}

/// The items of `items` read one by one. The first item that fails makes the
/// whole fail, with its index put before its own path.
pub open spec fn decoding_items<T: Decode>(items: Seq<JsonValue>) -> Result<
    Seq<<T as DeepView>::V>,
    DecodeFailure,
>
    decreases items.len(),
{
    if items.len() == 0 {
        Ok(Seq::empty())
    } else {
        match decoding_items::<T>(items.drop_last()) {
            Err(e) => Err(e),
            Ok(front) => match T::decoding(items.last()) {
                Ok(value) => Ok(front.push(value)),
                Err(e) => Err(failure_within(Step::Index((items.len() - 1) as nat), e)),
            },
        }
    }
}

/// A list is read from a JSON array, item by item.
pub open spec fn json_list<T: Decode>(json: JsonValue) -> Result<
    Seq<<T as DeepView>::V>,
    DecodeFailure,
> {
    match json {
        JsonValue::Array(items) => decoding_items::<T>(items),
        _ => Err(invalid_type()),
    }
}

/// The members of a JSON object; a value of another type has none.
pub open spec fn json_object(json: JsonValue) -> Result<
    Seq<(Seq<char>, JsonValue)>,
    DecodeFailure,
> {
    match json {
        JsonValue::Object(members) => Ok(members),
        _ => Err(invalid_type()),
    }
}

/// The failure to find the member `key`.
pub open spec fn missing_field(key: Seq<char>) -> DecodeFailure {
    failure_within(Step::Key(key), failure(DecodeErrorKind::MissingField, Seq::empty()))
}

/// What reading the member `key` as a `T` gives, where the member must be
/// there: a missing member fails, and a member that cannot be read fails
/// with the key put before its own path.
pub open spec fn required_field<T: Decode>(
    members: Seq<(Seq<char>, JsonValue)>,
    key: Seq<char>,
) -> Result<<T as DeepView>::V, DecodeFailure> {
    match member(members, key) {
        None => Err(missing_field(key)),
        Some(json) => match T::decoding(json) {
            Ok(value) => Ok(value),
            Err(e) => Err(failure_within(Step::Key(key), e)),
        },
    }
}

/// What reading the member `key` as a `T` gives, where the member may be
/// absent: a missing member and a null member both give absence.
pub open spec fn optional_field<T: Decode>(
    members: Seq<(Seq<char>, JsonValue)>,
    key: Seq<char>,
) -> Result<Option<<T as DeepView>::V>, DecodeFailure> {
    match member(members, key) {
        None => Ok(None),
        Some(json) => match json_optional(json, T::decoding(json)) {
            Ok(value) => Ok(value),
            Err(e) => Err(failure_within(Step::Key(key), e)),
        },
    }
}

impl Decode for String {
    open spec fn decoding(json: JsonValue) -> Result<Seq<char>, DecodeFailure> {
        json_text(json)
    }

    fn decode(json: &Json) -> (r: Result<String, DecodeError>) {
        match json {
            Json::String(text, _) => Ok(text.clone()),
            _ => Err(DecodeError::new(DecodeErrorKind::InvalidType)),
        }
    }
}

impl Decode for i32 {
    open spec fn decoding(json: JsonValue) -> Result<i32, DecodeFailure> {
        json_i32(json)
    }

    fn decode(json: &Json) -> (r: Result<i32, DecodeError>) {
        match json {
            Json::Number(Number::Integer(v)) => {
                if -0x8000_0000 <= *v && *v <= 0x7fff_ffff {
                    Ok(*v as i32)
                } else {
                    Err(DecodeError::new(DecodeErrorKind::InvalidType))
                }
            },
            _ => Err(DecodeError::new(DecodeErrorKind::InvalidType)),
        }
    }
}

impl Decode for Number {
    open spec fn decoding(json: JsonValue) -> Result<Number, DecodeFailure> {
        json_number(json)
    }

    fn decode(json: &Json) -> (r: Result<Number, DecodeError>) {
        match json {
            Json::Number(n) => Ok(*n),
            _ => Err(DecodeError::new(DecodeErrorKind::InvalidType)),
        }
    }
}

impl Decode for StateEnum {
    open spec fn decoding(json: JsonValue) -> Result<crate::state_enum::StateValue, DecodeFailure> {
        json_state(json)
    }

    fn decode(json: &Json) -> (r: Result<StateEnum, DecodeError>) {
        StateEnum::from_json(json)
    }
}

impl Decode for Timestamp {
    open spec fn decoding(json: JsonValue) -> Result<Instant, DecodeFailure> {
        json_timestamp(json)
    }

    fn decode(json: &Json) -> (r: Result<Timestamp, DecodeError>) {
        match json {
            Json::String(text, _) => match Timestamp::parse_from_rfc3339(text.as_str()) {
                Ok(date_time) => Ok(date_time),
                Err(_) => Err(
                    DecodeError::with_text(DecodeErrorKind::InvalidTimestamp, text.as_str()),
                ),
            },
            _ => Err(DecodeError::new(DecodeErrorKind::InvalidType)),
        }
    }
}

impl Decode for PlainDate {
    open spec fn decoding(json: JsonValue) -> Result<PlainDate, DecodeFailure> {
        json_date(json)
    }

    fn decode(json: &Json) -> (r: Result<PlainDate, DecodeError>) {
        match json {
            Json::String(text, _) => match PlainDate::parse(text.as_str()) {
                Some(date) => Ok(date),
                None => Err(DecodeError::with_text(DecodeErrorKind::InvalidDate, text.as_str())),
            },
            _ => Err(DecodeError::new(DecodeErrorKind::InvalidType)),
        }
    }
}

impl<T: Decode> Decode for Option<T> {
    open spec fn decoding(json: JsonValue) -> Result<Option<<T as DeepView>::V>, DecodeFailure> {
        json_optional(json, T::decoding(json))
    }

    fn decode(json: &Json) -> (r: Result<Option<T>, DecodeError>) {
        match json {
            Json::Null => Ok(None),
            _ => match T::decode(json) {
                Ok(value) => Ok(Some(value)),
                Err(e) => Err(e),
            },
        }
    }
}

impl<T: Decode> Decode for Vec<T> {
    open spec fn decoding(json: JsonValue) -> Result<Seq<<T as DeepView>::V>, DecodeFailure> {
        json_list::<T>(json)
    }

    fn decode(json: &Json) -> (r: Result<Vec<T>, DecodeError>) {
        match json {
            Json::Array(items) => {
                proof {
                    Json::lemma_array_view(*items);
                }
                let ghost all = items.deep_view();
                let mut out: Vec<T> = Vec::new();
                let mut i: usize = 0;
                proof {
                    assert(out.deep_view() =~= Seq::<<T as DeepView>::V>::empty());
                }
                while i < items.len()
                    invariant
                        i <= items.len(),
                        all == items.deep_view(),
                        json.deep_view() == JsonValue::Array(all),
                        decoding_items::<T>(all.take(i as int)) == Ok::<
                            Seq<<T as DeepView>::V>,
                            DecodeFailure,
                        >(out.deep_view()),
                    decreases items.len() - i,
                {
                    let ghost upto = all.take(i + 1);
                    let ghost before = out.deep_view();
                    proof {
                        assert(upto.drop_last() =~= all.take(i as int));
                    }
                    match T::decode(&items[i]) {
                        Ok(value) => {
                            out.push(value);
                            proof {
                                assert(out.deep_view() =~= before.push(value.deep_view()));
                            }
                        },
                        Err(e) => {
                            proof {
                                lemma_decoding_items_fails::<T>(all, i + 1);
                            }
                            return Err(e.in_item(i));
                        },
                    }
                    i += 1;
                }
                proof {
                    assert(all.take(items.len() as int) =~= all);
                }
                Ok(out)
            },
            _ => Err(DecodeError::new(DecodeErrorKind::InvalidType)),
        }
    }
}

/// Null is read as absence wherever a value may be absent: as a value of an
/// optional type, a state too, and as a member that may be missing. A
/// missing member is read as absence too.
pub proof fn lemma_null_is_absent<T: Decode>(members: Seq<(Seq<char>, JsonValue)>, key: Seq<char>)
    ensures
        Option::<T>::decoding(JsonValue::Null) == Ok::<Option<<T as DeepView>::V>, DecodeFailure>(
            None,
        ),
        json_optional(JsonValue::Null, json_state(JsonValue::Null)) == Ok::<
            Option<crate::state_enum::StateValue>,
            DecodeFailure,
        >(None),
        member(members, key) == Some(JsonValue::Null) ==> optional_field::<T>(members, key) == Ok::<
            Option<<T as DeepView>::V>,
            DecodeFailure,
        >(None),
        member(members, key) is None ==> optional_field::<T>(members, key) == Ok::<
            Option<<T as DeepView>::V>,
            DecodeFailure,
        >(None),
{
}

/// A member that must be there fails the record where it is missing.
pub proof fn lemma_missing_member_fails<T: Decode>(
    members: Seq<(Seq<char>, JsonValue)>,
    key: Seq<char>,
)
    requires
        member(members, key) is None,
    ensures
        required_field::<T>(members, key) == Err::<<T as DeepView>::V, DecodeFailure>(
            missing_field(key),
        ),
{
}

/// Once a prefix of a list fails to be read, the whole list fails the same way.
pub proof fn lemma_decoding_items_fails<T: Decode>(items: Seq<JsonValue>, k: int)
    requires
        0 <= k <= items.len(),
        decoding_items::<T>(items.take(k)) is Err,
    ensures
        decoding_items::<T>(items) == decoding_items::<T>(items.take(k)),
    decreases items.len() - k,
{
    if k == items.len() {
        assert(items.take(k) =~= items);
    } else {
        assert(items.take(k + 1).drop_last() =~= items.take(k));
        lemma_decoding_items_fails::<T>(items, k + 1);
    }
}

/// Looks a member up by its name. Of two members with one name the first
/// is found.
pub fn find<'a>(members: &'a Vec<(String, Json)>, key: &str) -> (r: Option<&'a Json>)
    ensures
        match r {
            Some(json) => member(members.deep_view(), key@) == Some(json.deep_view()),
            None => member(members.deep_view(), key@) is None,
        },
{
    let ghost all = members.deep_view();
    let mut i: usize = 0;
    proof {
        assert(all.skip(0) =~= all);
    }
    while i < members.len()
        invariant
            i <= members.len(),
            all == members.deep_view(),
            member(all, key@) == member(all.skip(i as int), key@),
        decreases members.len() - i,
    {
        proof {
            assert(all.skip(i as int).skip(1) =~= all.skip(i + 1));
        }
        if str_eq(members[i].0.as_str(), key) {
            return Some(&members[i].1);
        }
        i += 1;
    }
    None
}

/// The members of an object.
pub fn object(json: &Json) -> (r: Result<&Vec<(String, Json)>, DecodeError>)
    ensures
        match r {
            Ok(members) => json_object(json.deep_view()) == Ok::<
                Seq<(Seq<char>, JsonValue)>,
                DecodeFailure,
            >(members.deep_view()),
            Err(e) => json_object(json.deep_view()) == Err::<
                Seq<(Seq<char>, JsonValue)>,
                DecodeFailure,
            >(e.deep_view()),
        },
{
    match json {
        Json::Object(members) => {
            proof {
                Json::lemma_object_view(*members);
            }
            Ok(members)
        },
        _ => Err(DecodeError::new(DecodeErrorKind::InvalidType)),
    }
}

/// Reads the member `key`, which must be there.
pub fn required<T: Decode>(members: &Vec<(String, Json)>, key: &str) -> (r: Result<T, DecodeError>)
    ensures
        decoded(r) == required_field::<T>(members.deep_view(), key@),
{
    match find(members, key) {
        None => Err(DecodeError::new(DecodeErrorKind::MissingField).in_field(key)),
        Some(json) => match T::decode(json) {
            Ok(value) => Ok(value),
            Err(e) => Err(e.in_field(key)),
        },
    }
}

/// Reads the member `key`, which may be missing or null.
pub fn optional<T: Decode>(members: &Vec<(String, Json)>, key: &str) -> (r: Result<
    Option<T>,
    DecodeError,
>)
    ensures
        decoded(r) == optional_field::<T>(members.deep_view(), key@),
{
    match find(members, key) {
        None => Ok(None),
        Some(json) => match Option::<T>::decode(json) {
            Ok(value) => Ok(value),
            Err(e) => Err(e.in_field(key)),
        },
    }
}

/// A mapping from names to JSON values, kept unread: the attributes of a
/// state, which the hub leaves free in form. No name occurs twice.
#[derive(Debug, PartialEq, Eq)]
pub struct Attributes {
    members: Vec<(String, Json)>,
}

impl DeepView for Attributes {
    type V = Seq<(Seq<char>, JsonValue)>;

    open spec fn deep_view(&self) -> Seq<(Seq<char>, JsonValue)> {
        self.entries()
    }
}

fn position(members: &Vec<(String, Json)>, key: &str) -> (r: Option<usize>)
    ensures
        match r {
            Some(at) => {
                &&& at < members.len()
                &&& members.deep_view()[at as int].0 == key@
                &&& forall|j: int| 0 <= j < at ==> members.deep_view()[j].0 != key@
            },
            None => forall|j: int| 0 <= j < members.len() ==> members.deep_view()[j].0 != key@,
        },
{
    let mut i: usize = 0;
    while i < members.len()
        invariant
            i <= members.len(),
            forall|j: int| 0 <= j < i ==> members.deep_view()[j].0 != key@,
        decreases members.len() - i,
    {
        if str_eq(members[i].0.as_str(), key) {
            return Some(i);
        }
        i += 1;
    }
    None
}

impl Attributes {
    #[verifier::type_invariant]
    spec fn well_formed(self) -> bool {
        distinct_keys(self.members.deep_view())
    }

    /// The names and values, in the order in which the names first came.
    pub closed spec fn entries(&self) -> Seq<(Seq<char>, JsonValue)> {
        self.members.deep_view()
    }

    /// A mapping that holds nothing.
    pub fn new() -> (r: Attributes)
        ensures
            r.deep_view() == Seq::<(Seq<char>, JsonValue)>::empty(),
    {
        let r = Attributes { members: Vec::new() };
        assert(r.members.deep_view() =~= Seq::<(Seq<char>, JsonValue)>::empty());
        r
    }

    /// This mapping with `key` given the value `value`: in place of the value
    /// it had, or as a new entry at the end.
    pub fn with(self, key: String, value: Json) -> (r: Attributes)
        ensures
            r.deep_view() == put(self.deep_view(), key@, value.deep_view()),
    {
        proof {
            use_type_invariant(&self);
        }
        let mut members = self.members;
        let ghost before = members.deep_view();
        let ghost pair = (key@, value.deep_view());
        match position(&members, key.as_str()) {
            Some(at) => {
                members.set(at, (key, value));
                proof {
                    lemma_put_found(before, at as int, pair.0, pair.1);
                    assert(members.deep_view() =~= before.update(at as int, pair));
                }
            },
            None => {
                members.push((key, value));
                proof {
                    lemma_put_absent(before, pair.0, pair.1);
                    assert(members.deep_view() =~= before.push(pair));
                }
            },
        }
        Attributes { members }
    }

    /// The entries: no name occurs twice among them.
    pub fn members(&self) -> (r: &Vec<(String, Json)>)
        ensures
            r.deep_view() == self.deep_view(),
            distinct_keys(r.deep_view()),
    {
        proof {
            use_type_invariant(self);
        }
        &self.members
    }

    /// How many entries there are.
    pub fn len(&self) -> (r: usize)
        ensures
            r == self.deep_view().len(),
    {
        self.members.len()
    }

    /// Whether there is no entry.
    pub fn is_empty(&self) -> (r: bool)
        ensures
            r == (self.deep_view().len() == 0),
    {
        self.members.len() == 0
    }

    /// The value of the attribute `key`, if there is one.
    pub fn get(&self, key: &str) -> (r: Option<&Json>)
        ensures
            match r {
                Some(json) => member(self.deep_view(), key@) == Some(json.deep_view()),
                None => member(self.deep_view(), key@) is None,
            },
    {
        find(&self.members, key)
    }
}

impl Decode for Attributes {
    /// Read from an object: every member is kept unread, in the order in
    /// which the names first come. Of two members with one name the later
    /// value is kept.
    open spec fn decoding(json: JsonValue) -> Result<Seq<(Seq<char>, JsonValue)>, DecodeFailure> {
        match json_object(json) {
            Ok(members) => Ok(merged(members)),
            Err(e) => Err(e),
        }
    }

    fn decode(json: &Json) -> (r: Result<Attributes, DecodeError>) {
        let members = object(json)?;
        let ghost all = members.deep_view();
        let mut out = Attributes::new();
        let mut i: usize = 0;
        proof {
            assert(all.take(0) =~= Seq::<(Seq<char>, JsonValue)>::empty());
        }
        while i < members.len()
            invariant
                i <= members.len(),
                all == members.deep_view(),
                out.deep_view() == merged(all.take(i as int)),
            decreases members.len() - i,
        {
            proof {
                assert(all.take(i + 1).drop_last() =~= all.take(i as int));
                assert(all.take(i + 1).last() == (
                    members[i as int].0@,
                    members[i as int].1.deep_view(),
                ));
            }
            out = out.with(members[i].0.clone(), members[i].1.copy());
            i += 1;
        }
        proof {
            assert(all.take(members.len() as int) =~= all);
        }
        Ok(out)
    }
}

/// Reads a timestamp from a JSON string in RFC 3339 form.
pub fn deserialize_datetime(json: &Json) -> (r: Result<Timestamp, DecodeError>)
    ensures
        decoded(r) == json_timestamp(json.deep_view()),
{
    Timestamp::decode(json)
}

/// Reads a timestamp that may be absent: null gives none.
pub fn deserialize_optional_datetime(json: &Json) -> (r: Result<Option<Timestamp>, DecodeError>)
    ensures
        decoded(r) == json_optional(json.deep_view(), json_timestamp(json.deep_view())),
{
    Option::<Timestamp>::decode(json)
}

/// Reads a plain date from a JSON string of the form `YYYY-MM-DD`.
pub fn deserialize_date(json: &Json) -> (r: Result<PlainDate, DecodeError>)
    ensures
        decoded(r) == json_date(json.deep_view()),
{
    PlainDate::decode(json)
}

/// Reads a state from a boolean, a number or a string.
pub fn deserialize_state_enum(json: &Json) -> (r: Result<StateEnum, DecodeError>)
    ensures
        decoded(r) == json_state(json.deep_view()),
{
    StateEnum::decode(json)
}

/// Reads a state that may be absent: null gives none.
pub fn deserialize_optional_state_enum(json: &Json) -> (r: Result<Option<StateEnum>, DecodeError>)
    ensures
        decoded(r) == json_optional(json.deep_view(), json_state(json.deep_view())),
{
    Option::<StateEnum>::decode(json)
}

} // verus!
