//! What can go wrong with a call, and where in a reply a decoder gave up.

use vstd::prelude::*;
use crate::scalar::{decimal_string, digits_of};

verus! {

/// The error `url` reports for a text that is no absolute URL.
#[verifier::external_type_specification]
#[verifier::external_body]
pub struct ExUrlParseError(url::ParseError);

/// One step into a JSON value: into a member of an object or an item of an array.
#[derive(Clone, Debug, PartialEq, Eq)]
pub enum PathSegment {
    Key(String),
    Index(usize),
}

/// A [`PathSegment`] as plain values.
pub enum Step {
    Key(Seq<char>),
    Index(nat),
}

impl DeepView for PathSegment {
    type V = Step;

    open spec fn deep_view(&self) -> Step {
        match self {
            PathSegment::Key(name) => Step::Key(name@),
            PathSegment::Index(at) => Step::Index(*at as nat),
        }
    }
}

/// Why a decoder gave up on a value.
#[derive(Clone, Copy, Debug, PartialEq, Eq, Structural)]
pub enum DecodeErrorKind {
    /// The reply is not JSON at all.
    Syntax,
    /// A member that must be there is not.
    MissingField,
    /// The value has another JSON type than the record asks for, or is a
    /// number that the field's type cannot hold.
    InvalidType,
    /// The text is no RFC 3339 timestamp.
    InvalidTimestamp,
    /// The text is no `YYYY-MM-DD` date.
    InvalidDate,
}

/// A reply that could not be read: where the decoder gave up, why, and the
/// text it gave up on (the raw text of a timestamp or date that does not
/// parse, the parser's message for a reply that is not JSON, else empty).
#[derive(Clone, Debug, PartialEq, Eq)]
pub struct DecodeError {
    pub path: Vec<PathSegment>,
    pub kind: DecodeErrorKind,
    pub text: String,
}

/// A [`DecodeError`] as plain values.
pub struct DecodeFailure {
    pub path: Seq<Step>,
    pub kind: DecodeErrorKind,
    pub text: Seq<char>,
}

impl DeepView for DecodeError {
    type V = DecodeFailure;

    open spec fn deep_view(&self) -> DecodeFailure {
        DecodeFailure { path: self.path.deep_view(), kind: self.kind, text: self.text@ }
    }
}

/// One step of a path as it is written: `.name` for a member, `[index]` for
/// an item.
pub open spec fn step_text(step: Step) -> Seq<char> {
    match step {
        Step::Key(name) => "."@ + name,
        Step::Index(at) => "["@ + digits_of(at) + "]"@,
    }
}

/// The first `n` steps of a path as they are written, one after the other.
pub open spec fn steps_text(path: Seq<Step>, n: nat) -> Seq<char>
    decreases n,
{
    if n == 0 || n > path.len() {
        Seq::empty()
    } else {
        steps_text(path, (n - 1) as nat) + step_text(path[n - 1])
    }
}

/// A path as it is written: its steps one after the other, and `.` alone
/// for the path that leads nowhere, to the reply itself.
pub open spec fn path_text(path: Seq<Step>) -> Seq<char> {
    if path.len() == 0 {
        "."@
    } else {
        steps_text(path, path.len())
    }
}

/// What went wrong, in words.
pub open spec fn kind_text(kind: DecodeErrorKind) -> Seq<char> {
    match kind {
        DecodeErrorKind::Syntax => "not JSON: "@,
        DecodeErrorKind::MissingField => "missing field"@,
        DecodeErrorKind::InvalidType => "invalid type"@,
        DecodeErrorKind::InvalidTimestamp => "error parsing timestamp "@,
        DecodeErrorKind::InvalidDate => "error parsing date "@,
    }
}

/// A failure in words: what went wrong, the text it went wrong on, and the
/// path to the place.
pub open spec fn failure_text(f: DecodeFailure) -> Seq<char> {
    kind_text(f.kind) + f.text + " at "@ + path_text(f.path)
}

/// What a decoder handed back, as plain values.
pub open spec fn decoded<T: DeepView>(r: Result<T, DecodeError>) -> Result<T::V, DecodeFailure> {
    match r {
        Ok(value) => Ok(value.deep_view()),
        Err(e) => Err(e.deep_view()),
    }
}

/// The failure of the given kind at the value itself.
pub open spec fn failure(kind: DecodeErrorKind, text: Seq<char>) -> DecodeFailure {
    DecodeFailure { path: Seq::empty(), kind, text }
}

/// The failure `inner`, seen from one step further out.
pub open spec fn failure_within(step: Step, inner: DecodeFailure) -> DecodeFailure {
    DecodeFailure { path: seq![step] + inner.path, kind: inner.kind, text: inner.text }
}

impl DecodeError {
    /// A failure of the given kind at the value itself, with no text.
    pub fn new(kind: DecodeErrorKind) -> (r: DecodeError)
        ensures
            r.deep_view() == failure(kind, Seq::empty()),
    {
        let r = DecodeError { path: Vec::new(), kind, text: String::new() };
        assert(r.path.deep_view() =~= Seq::<Step>::empty());
        r
    }

    /// A failure of the given kind at the value itself, with the text that
    /// the decoder gave up on.
    pub fn with_text(kind: DecodeErrorKind, text: &str) -> (r: DecodeError)
        ensures
            r.deep_view() == failure(kind, text@),
    {
        let r = DecodeError { path: Vec::new(), kind, text: String::from_str(text) };
        assert(r.path.deep_view() =~= Seq::<Step>::empty());
        r
    }

    /// The path to the failing value as it is written, such as
    /// `[0].context.id`.
    pub fn path_string(&self) -> (r: String)
        ensures
            r@ == path_text(self.deep_view().path),
    {
        let ghost path = self.path.deep_view();
        if self.path.len() == 0 {
            return String::from_str(".");
        }
        let mut out = String::new();
        let mut i: usize = 0;
        while i < self.path.len()
            invariant
                i <= self.path.len(),
                path == self.path.deep_view(),
                out@ == steps_text(path, i as nat),
            decreases self.path.len() - i,
        {
            match &self.path[i] {
                PathSegment::Key(name) => {
                    out.append(".");
                    out.append(name.as_str());
                },
                PathSegment::Index(at) => {
                    let digits = decimal_string(*at as u64);
                    out.append("[");
                    out.append(digits.as_str());
                    out.append("]");
                },
            }
            i += 1;
        }
        out
    }

    /// This failure in words.
    pub fn message(&self) -> (r: String)
        ensures
            r@ == failure_text(self.deep_view()),
    {
        let words = match self.kind {
            DecodeErrorKind::Syntax => "not JSON: ",
            DecodeErrorKind::MissingField => "missing field",
            DecodeErrorKind::InvalidType => "invalid type",
            DecodeErrorKind::InvalidTimestamp => "error parsing timestamp ",
            DecodeErrorKind::InvalidDate => "error parsing date ",
        };
        let mut out = String::from_str(words);
        out.append(self.text.as_str());
        out.append(" at ");
        out.append(self.path_string().as_str());
        out
    }

    /// This failure, seen from the object that holds the failing value under `key`.
    pub fn in_field(self, key: &str) -> (r: DecodeError)
        ensures
            r.deep_view() == failure_within(Step::Key(key@), self.deep_view()),
    {
        let mut path = self.path;
        path.insert(0, PathSegment::Key(String::from_str(key)));
        let r = DecodeError { path, kind: self.kind, text: self.text };
        assert(r.path.deep_view() =~= seq![Step::Key(key@)] + self.path.deep_view());
        r
    }

    /// This failure, seen from the array that holds the failing value at `at`.
    pub fn in_item(self, at: usize) -> (r: DecodeError)
        ensures
            r.deep_view() == failure_within(Step::Index(at as nat), self.deep_view()),
    {
        let mut path = self.path;
        path.insert(0, PathSegment::Index(at));
        let r = DecodeError { path, kind: self.kind, text: self.text };
        assert(r.path.deep_view() =~= seq![Step::Index(at as nat)] + self.path.deep_view());
        r
    }
}

/// Why a text is no base URL.
#[derive(Debug)]
pub enum UrlError {
    /// The text is no absolute URL; the reason is the parser's.
    Refused(url::ParseError),
    /// The text is an absolute URL, but one without a host.
    NoHost,
}

/// Why a call failed.
#[derive(Debug)]
pub enum Error {
    /// The base URL given at construction is no absolute URL with a host.
    UrlParseFailed(UrlError),
    /// The request could not be sent or its reply could not be read; the
    /// text is the transport's own message.
    RequestFailed(String),
    /// The reply does not have the shape that the call promises.
    DeserializeFailed(DecodeError),
}

/// Why a call failed, with the whole reply kept beside a decoding failure.
#[derive(Debug)]
pub enum DebuggingError {
    /// The request could not be sent or its reply could not be read.
    RequestFailed(String),
    /// The reply does not have the promised shape: the failure, which names
    /// the path to the offending value, and the reply as text.
    DeserializeFailed { error: DecodeError, response: String },
    /// The hub itself reported an error.
    ApiErrorResponse(String),
}

} // verus!
