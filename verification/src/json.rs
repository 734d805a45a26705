//! JSON values as the decoders read them.
//!
//! A reply is parsed outside this crate; what the parser found is handed in
//! as a [`Json`] value. A floating-point number is held by the 64 bits of its
//! IEEE 754 binary64 form, and a string carries, beside its text, the number
//! it reads as.

use vstd::prelude::*;

verus! {

/// A JSON number, told apart by the kind of its token.
#[derive(Clone, Copy, Debug, PartialEq, Eq, Structural)]
pub enum Number {
    /// A token without fraction or exponent that fits in 64 signed bits.
    Integer(i64),
    /// A token without fraction or exponent that needs 64 unsigned bits.
    Unsigned(u64),
    /// A token with a fraction or an exponent, by the bits of its binary64 value.
    Decimal(u64),
}

impl DeepView for Number {
    type V = Number;

    open spec fn deep_view(&self) -> Number {
        *self
    }
}

/// A JSON value.
#[derive(Debug, PartialEq, Eq)]
pub enum Json {
    Null,
    Bool(bool),
    Number(Number),
    /// A string: its text and, where the text reads as a floating-point
    /// number, the bits of that number's binary64 value.
    String(String, Option<u64>),
    Array(Vec<Json>),
    /// An object: its members in the order they were written.
    Object(Vec<(String, Json)>),
}

/// A [`Json`] value as plain values.
pub enum JsonValue {
    Null,
    Bool(bool),
    Number(Number),
    String(Seq<char>, Option<u64>),
    Array(Seq<JsonValue>),
    Object(Seq<(Seq<char>, JsonValue)>),
}

impl Json {
    /// This value as plain values.
    pub open spec fn value(&self) -> JsonValue
        decreases self,
    {
        match self {
            Json::Null => JsonValue::Null,
            Json::Bool(b) => JsonValue::Bool(*b),
            Json::Number(n) => JsonValue::Number(*n),
            Json::String(text, decimal) => JsonValue::String(text@, *decimal),
            Json::Array(items) => JsonValue::Array(
                Seq::new(
                    items@.len(),
                    |i: int|
                        if 0 <= i < items@.len() {
                            items@[i].value()
                        } else {
                            JsonValue::Null
                        },
                ),
            ),
            Json::Object(members) => JsonValue::Object(
                Seq::new(
                    members@.len(),
                    |i: int|
                        if 0 <= i < members@.len() {
                            (members@[i].0@, members@[i].1.value())
                        } else {
                            (Seq::empty(), JsonValue::Null)
                        },
                ),
            ),
        }
    }
}

impl DeepView for Json {
    type V = JsonValue;

    open spec fn deep_view(&self) -> JsonValue {
        self.value()
    }
}

/// The value of the first member of `members` that is named `key`.
pub open spec fn member(members: Seq<(Seq<char>, JsonValue)>, key: Seq<char>) -> Option<JsonValue>
    decreases members.len(),
{
    if members.len() == 0 {
        None
    } else if members[0].0 == key {
        Some(members[0].1)
    } else {
        member(members.skip(1), key)
    }
}

/// `members` with the member `key` given the value `value`: in the place of
/// the first member of that name, or at the end where there is none.
pub open spec fn put(members: Seq<(Seq<char>, JsonValue)>, key: Seq<char>, value: JsonValue) -> Seq<
    (Seq<char>, JsonValue),
>
    decreases members.len(),
{
    if members.len() == 0 {
        seq![(key, value)]
    } else if members[0].0 == key {
        seq![(key, value)] + members.skip(1)
    } else {
        seq![members[0]] + put(members.skip(1), key, value)
    }
}

/// The members of an object as a mapping holds them: put one after the
/// other, so that of two members with one name the later value stays.
pub open spec fn merged(members: Seq<(Seq<char>, JsonValue)>) -> Seq<(Seq<char>, JsonValue)>
    decreases members.len(),
{
    if members.len() == 0 {
        Seq::empty()
    } else {
        put(merged(members.drop_last()), members.last().0, members.last().1)
    }
}

/// Whether no name occurs twice among the members.
pub open spec fn distinct_keys(members: Seq<(Seq<char>, JsonValue)>) -> bool {
    forall|i: int, j: int| 0 <= i < j < members.len() ==> members[i].0 != members[j].0
}

/// Putting a member whose name is there, first at `at`, changes the value at
/// `at` and nothing else.
pub proof fn lemma_put_found(
    members: Seq<(Seq<char>, JsonValue)>,
    at: int,
    key: Seq<char>,
    value: JsonValue,
)
    requires
        0 <= at < members.len(),
        members[at].0 == key,
        forall|j: int| 0 <= j < at ==> members[j].0 != key,
    ensures
        put(members, key, value) == members.update(at, (key, value)),
    decreases at,
{
    if at == 0 {
        assert(seq![(key, value)] + members.skip(1) =~= members.update(0, (key, value)));
    } else {
        let rest = members.skip(1);
        assert forall|j: int| 0 <= j < at - 1 implies rest[j].0 != key by {
            assert(rest[j] == members[j + 1]);
        }
        lemma_put_found(rest, at - 1, key, value);
        assert(seq![members[0]] + rest.update(at - 1, (key, value)) =~= members.update(
            at,
            (key, value),
        ));
    }
}

/// Putting a member whose name is not there adds it at the end.
pub proof fn lemma_put_absent(
    members: Seq<(Seq<char>, JsonValue)>,
    key: Seq<char>,
    value: JsonValue,
)
    requires
        forall|j: int| 0 <= j < members.len() ==> members[j].0 != key,
    ensures
        put(members, key, value) == members.push((key, value)),
    decreases members.len(),
{
    if members.len() > 0 {
        let rest = members.skip(1);
        assert forall|j: int| 0 <= j < rest.len() implies rest[j].0 != key by {
            assert(rest[j] == members[j + 1]);
        }
        lemma_put_absent(rest, key, value);
        assert(seq![members[0]] + rest.push((key, value)) =~= members.push((key, value)));
    } else {
        assert(seq![(key, value)] =~= members.push((key, value)));
    }
}

impl Json {
    /// The items of an array are the views of its items.
    pub proof fn lemma_array_view(items: Vec<Json>)
        ensures
            Json::Array(items).deep_view() == JsonValue::Array(items.deep_view()),
    {
        let whole = Json::Array(items).deep_view();
        assert forall|i: int| 0 <= i < items@.len() implies whole->Array_0[i]
            == items.deep_view()[i] by {
        }
        assert(whole->Array_0 =~= items.deep_view());
    }

    /// The members of an object are the views of its members.
    pub proof fn lemma_object_view(members: Vec<(String, Json)>)
        ensures
            Json::Object(members).deep_view() == JsonValue::Object(members.deep_view()),
    {
        let whole = Json::Object(members).deep_view();
        assert forall|i: int| 0 <= i < members@.len() implies whole->Object_0[i]
            == members.deep_view()[i] by {}
        assert(whole->Object_0 =~= members.deep_view());
    }

    /// A copy of this value.
    pub fn copy(&self) -> (r: Json)
        ensures
            r.deep_view() == self.deep_view(),
        decreases self,
    {
        match self {
            Json::Null => Json::Null,
            Json::Bool(b) => Json::Bool(*b),
            Json::Number(n) => Json::Number(*n),
            Json::String(text, decimal) => Json::String(text.clone(), *decimal),
            Json::Array(items) => {
                let mut out: Vec<Json> = Vec::new();
                let mut i: usize = 0;
                while i < items.len()
                    invariant
                        i <= items.len(),
                        out@.len() == i,
                        forall|k: int| 0 <= k < i ==> out@[k].deep_view() == items@[k].deep_view(),
                        *self == Json::Array(*items),
                    decreases items.len() - i,
                {
                    proof {
                        vstd::std_specs::vec::axiom_vec_index_decreases(*items, i as int);
                        assert(decreases_to!(*self => self->Array_0));
                    }
                    out.push(items[i].copy());
                    i += 1;
                }
                let r = Json::Array(out);
                assert(r.deep_view()->Array_0 =~= self.deep_view()->Array_0);
                r
            },
            Json::Object(members) => {
                let mut out: Vec<(String, Json)> = Vec::new();
                let mut i: usize = 0;
                while i < members.len()
                    invariant
                        i <= members.len(),
                        out@.len() == i,
                        forall|k: int|
                            0 <= k < i ==> out@[k].0@ == members@[k].0@ && out@[k].1.deep_view()
                                == members@[k].1.deep_view(),
                        *self == Json::Object(*members),
                    decreases members.len() - i,
                {
                    proof {
                        vstd::std_specs::vec::axiom_vec_index_decreases(*members, i as int);
                        assert(decreases_to!(*self => self->Object_0));
                    }
                    out.push((members[i].0.clone(), members[i].1.copy()));
                    i += 1;
                }
                let r = Json::Object(out);
                assert(r.deep_view()->Object_0 =~= self.deep_view()->Object_0);
                r
            },
        }
    }
}

} // verus!
