//! The connection to one hub: where it is, how to authenticate, and how each
//! request is addressed.
//!
//! Nothing here touches the network. A [`Client`] turns a path, a query and a
//! payload into an [`HttpRequest`]: the method, the full URL, the headers and
//! the payload, ready to be sent by whoever owns the transport.

use vstd::prelude::*;
use vstd::utf8::{decode_utf8, valid_utf8};
use crate::deserialize::Decode;
use crate::escape::{
    escape,
    escaped,
    is_plain,
    lemma_escaped_is_plain,
    lemma_escaped_unchanged,
};
use crate::errors::{
    decoded,
    failure,
    DebuggingError,
    DecodeError,
    DecodeErrorKind,
    DecodeFailure,
    Error,
    UrlError,
};
use crate::get;
use crate::get::Parameters;
use crate::json::Json;
use crate::post;
use crate::post::Requestable;
use crate::text::{concat, joined};

verus! {

/// The normal form that `url` gives an absolute URL; `None` for a text that
/// it refuses.
pub uninterp spec fn url_parsed(text: Seq<char>) -> Option<Seq<char>>;

/// Whether the URL that `url` reads from a text has a host.
pub uninterp spec fn url_has_host(text: Seq<char>) -> bool;

/// The URL that `url` reads from the text `base`, after `url` has replaced
/// its path by `path`.
pub uninterp spec fn url_with_path(base: Seq<char>, path: Seq<char>) -> Seq<char>;

/// The URL that `url` reads from the text `base`, after `url` has replaced
/// its path by `path` and then its query by `query`.
pub uninterp spec fn url_with_query(base: Seq<char>, path: Seq<char>, query: Seq<char>) -> Seq<
    char,
>;

/// The number of bytes that a text takes in UTF-8.
pub open spec fn byte_len(text: Seq<char>) -> nat {
    vstd::utf8::encode_utf8(text).len()
}

/// Whether a path and a query can be attached to a URL in escaped form:
/// whether all together stay under 4 GiB with each byte of path and query
/// counted three times, and eight bytes to spare.
pub open spec fn has_room(url: Seq<char>, path: Seq<char>, query: Seq<char>) -> bool {
    byte_len(url) + 3 * byte_len(path) + 3 * byte_len(query) + 8 <= u32::MAX
}

fn room(url: &str, path: &str, query: &str) -> (r: bool)
    ensures
        r == has_room(url@, path@, query@),
{
    let base: usize = url.as_bytes().len();
    let p: usize = path.as_bytes().len();
    let q: usize = query.as_bytes().len();
    if base > 0xffff_ffff || p > 0x5555_5555 || q > 0x5555_5555 {
        return false;
    }
    base as u64 + 3 * (p as u64) + 3 * (q as u64) + 8 <= 0xffff_ffff
}

/// Trusted: `Url::parse` of `url`, whose result is handed back as its
/// serialization, the form by which `url` itself compares URLs. The contract
/// only names the result.
#[verifier::external_body]
fn url_parse(text: &str) -> (r: Result<String, url::ParseError>)
    ensures
        match r {
            Ok(normal) => url_parsed(text@) == Some(normal@),
            Err(_) => url_parsed(text@) is None,
        },
{
    match url::Url::parse(text) {
        Ok(parsed) => Ok(String::from(parsed)),
        Err(e) => Err(e),
    }
}

/// Trusted: `Url::has_host` of `url`, on the URL that `Url::parse` reads from
/// `text`. The contract only names the result.
#[verifier::external_body]
fn url_host(text: &str) -> (r: bool)
    requires
        url_parsed(text@) is Some,
    ensures
        r == url_has_host(text@),
{
    url::Url::parse(text).unwrap().has_host()
}

/// Trusted: `Url::set_path` of `url`, on the URL that `Url::parse` reads from
/// `base`; the result is handed back as its serialization. The contract only
/// names the result. The `requires` keeps the result under 4 GiB, beyond
/// which `url` panics: the new path is the given one percent-encoded, three
/// bytes for one at most, with a `/` put before it where it has none.
#[verifier::external_body]
fn url_set_path(base: &str, path: &str) -> (r: String)
    requires
        url_parsed(base@) is Some,
        has_room(url_parsed(base@)->0, path@, Seq::empty()),
    ensures
        r@ == url_with_path(base@, path@),
{
    let mut parsed = url::Url::parse(base).unwrap();
    parsed.set_path(path);
    String::from(parsed)
}

/// Trusted: `Url::set_query` of `url` with a query that is present, on the
/// URL that `Url::parse` reads from `base` and `Url::set_path` has given the
/// path `path`: the one `Url` is parsed once and both are set on it. The
/// contract only names the result. The `requires` keeps the result under
/// 4 GiB, beyond which `url` panics: path and query are percent-encoded,
/// three bytes for one at most, after `/` and `?`.
#[verifier::external_body]
fn url_set_query(base: &str, path: &str, query: &str) -> (r: String)
    requires
        url_parsed(base@) is Some,
        has_room(url_parsed(base@)->0, path@, query@),
    ensures
        r@ == url_with_query(base@, path@, query@),
{
    let mut parsed = url::Url::parse(base).unwrap();
    parsed.set_path(path);
    parsed.set_query(Some(query));
    String::from(parsed)
}

/// Trusted: `std::str::from_utf8`. Bytes that are valid UTF-8 give the text
/// they encode, and any other bytes give nothing.
#[verifier::external_body]
fn text_from_utf8(bytes: &[u8]) -> (r: Option<&str>)
    ensures
        match r {
            Some(text) => valid_utf8(bytes@) && text@ == decode_utf8(bytes@),
            None => !valid_utf8(bytes@),
        },
{
    match std::str::from_utf8(bytes) {
        Ok(text) => Some(text),
        Err(_) => None,
    }
}

/// The method of a request.
#[derive(Clone, Copy, Debug, PartialEq, Eq, Structural)]
pub enum Method {
    Get,
    Post,
}

/// A request ready to be sent: the method, the full URL, the headers in the
/// order they are set, and the payload, if one goes with it.
pub struct HttpRequest<B> {
    pub method: Method,
    pub url: String,
    pub headers: Vec<(String, String)>,
    pub body: Option<B>,
}

/// The headers that every request carries: the bearer token, and JSON as the
/// content type.
pub open spec fn standard_headers(token: Seq<char>) -> Seq<(Seq<char>, Seq<char>)> {
    seq![("Authorization"@, "Bearer "@ + token), ("Content-Type"@, "application/json"@)]
}

/// One query pair as it is written: the escaped name, `=`, the escaped
/// value.
pub open spec fn pair_text(pair: (Seq<char>, Seq<char>)) -> Seq<char> {
    escaped(pair.0) + "="@ + escaped(pair.1)
}

/// A pair is written so that it can be read back: no `&` stands in it, and
/// its first `=` is the one between name and value.
pub proof fn lemma_pair_text_parts(pair: (Seq<char>, Seq<char>))
    ensures
        !pair_text(pair).contains('&'),
        pair_text(pair).len() == escaped(pair.0).len() + 1 + escaped(pair.1).len(),
        pair_text(pair)[escaped(pair.0).len() as int] == '=',
        forall|i: int| 0 <= i < escaped(pair.0).len() ==> pair_text(pair)[i] != '=',
{
    reveal_strlit("=");
    lemma_escaped_is_plain(pair.0);
    lemma_escaped_is_plain(pair.1);
    let name = escaped(pair.0);
    let value = escaped(pair.1);
    let whole = pair_text(pair);
    assert forall|i: int| 0 <= i < whole.len() implies whole[i] != '&' by {
        if i < name.len() {
            assert(whole[i] == name[i]);
        } else if i > name.len() {
            assert(whole[i] == value[i - name.len() - 1]);
        }
    }
    assert forall|i: int| 0 <= i < name.len() implies whole[i] != '=' by {
        assert(whole[i] == name[i]);
    }
}

/// A pair that holds nothing to escape is written as it is: a timestamp
/// keeps its colons, and a list of entity ids its commas.
pub proof fn lemma_pair_text_unchanged(pair: (Seq<char>, Seq<char>))
    requires
        forall|i: int| 0 <= i < pair.0.len() ==> is_plain(#[trigger] pair.0[i]) && pair.0[i] != '%',
        forall|i: int| 0 <= i < pair.1.len() ==> is_plain(#[trigger] pair.1[i]) && pair.1[i] != '%',
    ensures
        pair_text(pair) == pair.0 + "="@ + pair.1,
{
    lemma_escaped_unchanged(pair.0);
    lemma_escaped_unchanged(pair.1);
}

/// The query pairs as they are written: each as `name=value`, with `&`
/// between neighbours.
pub open spec fn query_text(query: Seq<(Seq<char>, Seq<char>)>) -> Seq<char> {
    joined(query.map_values(|pair: (Seq<char>, Seq<char>)| pair_text(pair)), "&"@)
}

/// Writes the query pairs as `name=value`, joined by `&`. Names and values
/// are escaped where they hold a `&`, `=`, `+`, `%`, `#`, a blank or another
/// character that cannot stand in a query, so that none of theirs is taken
/// for a part of the query's own form; all else is written as it is.
pub fn query_string(query: &Vec<(String, String)>) -> (r: String)
    ensures
        r@ == query_text(query.deep_view()),
{
    let ghost texts = query.deep_view().map_values(|pair: (Seq<char>, Seq<char>)| pair_text(pair));
    let mut out = String::new();
    let mut first_time = true;
    let mut i: usize = 0;
    while i < query.len()
        invariant
            i <= query.len(),
            first_time == (i == 0),
            texts == query.deep_view().map_values(|pair: (Seq<char>, Seq<char>)| pair_text(pair)),
            out@ == joined(texts.take(i as int), "&"@),
        decreases query.len() - i,
    {
        proof {
            assert(texts.take(i + 1).drop_last() =~= texts.take(i as int));
        }
        if !first_time {
            out.append("&");
        }
        out.append(escape(query[i].0.as_str()).as_str());
        out.append("=");
        out.append(escape(query[i].1.as_str()).as_str());
        first_time = false;
        i += 1;
    }
    proof {
        assert(texts.take(query.len() as int) =~= texts);
    }
    out
}

/// A connection to one hub: its base URL and the token that opens it.
pub struct Client {
    given: String,
    url: String,
    token: String,
}

impl Client {
    #[verifier::type_invariant]
    spec fn well_formed(self) -> bool {
        url_parsed(self.given@) == Some(self.url@)
    }

    /// The base URL as it was given.
    pub closed spec fn given_url(&self) -> Seq<char> {
        self.given@
    }

    /// The base URL in normal form.
    pub closed spec fn base_url(&self) -> Seq<char> {
        self.url@
    }

    /// The bearer token.
    pub closed spec fn token(&self) -> Seq<char> {
        self.token@
    }

    /// Whether `path` can be attached to the base URL: whether the URL stays
    /// under the 4 GiB that a URL may take, each byte of the path counted
    /// three times for its escaped form.
    pub open spec fn path_fits(&self, path: Seq<char>) -> bool {
        has_room(self.base_url(), path, Seq::empty())
    }

    /// Whether a read request can be addressed: whether its path and, where
    /// it has query pairs, its query can be attached to the base URL.
    pub open spec fn fits(&self, asked: get::RequestView) -> bool {
        if asked.query.len() == 0 {
            self.path_fits(asked.endpoint)
        } else {
            has_room(self.base_url(), asked.endpoint, query_text(asked.query))
        }
    }

    /// Makes a client for the hub at `url`. The URL is checked and nothing
    /// else: the hub is not contacted.
    ///
    /// Every text that is an absolute URL with a host is accepted. A text
    /// that is no absolute URL is refused with the parser's reason, and an
    /// absolute URL without a host, such as `mailto:a`, is refused as having
    /// none; both as `UrlParseFailed`.
    pub fn new(url: &str, token: &str) -> (r: Result<Client, Error>)
        ensures
            match r {
                Ok(client) => {
                    &&& url_parsed(url@) == Some(client.base_url())
                    &&& url_has_host(url@)
                    &&& client.given_url() == url@
                    &&& client.token() == token@
                },
                Err(Error::UrlParseFailed(UrlError::Refused(_))) => url_parsed(url@) is None,
                Err(Error::UrlParseFailed(UrlError::NoHost)) => url_parsed(url@) is Some
                    && !url_has_host(url@),
                Err(_) => false,
            },
    {
        match url_parse(url) {
            Ok(normal) => {
                if url_host(url) {
                    Ok(
                        Client {
                            given: String::from_str(url),
                            url: normal,
                            token: String::from_str(token),
                        },
                    )
                } else {
                    Err(Error::UrlParseFailed(UrlError::NoHost))
                }
            },
            Err(e) => Err(Error::UrlParseFailed(UrlError::Refused(e))),
        }
    }

    /// The base URL in normal form.
    pub fn url(&self) -> (r: &str)
        ensures
            r@ == self.base_url(),
    {
        self.url.as_str()
    }

    fn headers(&self) -> (r: Vec<(String, String)>)
        ensures
            r.deep_view() == standard_headers(self.token()),
    {
        let mut headers: Vec<(String, String)> = Vec::new();
        headers.push((String::from_str("Authorization"), concat("Bearer ", self.token.as_str())));
        headers.push((String::from_str("Content-Type"), String::from_str("application/json")));
        headers
    }

    fn address(&self, path: &str) -> (r: Option<String>)
        ensures
            match r {
                Some(url) => self.path_fits(path@) && url@ == url_with_path(
                    self.given_url(),
                    path@,
                ),
                None => !self.path_fits(path@),
            },
    {
        proof {
            use_type_invariant(self);
            reveal_strlit("");
        }
        if room(self.url.as_str(), path, "") {
            Some(url_set_path(self.given.as_str(), path))
        } else {
            None
        }
    }

    /// Whether `r` is what a request without query to `path` must be: `None`
    /// if and only if the path cannot be attached, else the request with the
    /// given method, the base URL with `path` for its path and the rest left
    /// alone, and the standard headers.
    pub open spec fn is_request<B>(
        &self,
        r: Option<HttpRequest<B>>,
        method: Method,
        path: Seq<char>,
    ) -> bool {
        match r {
            Some(request) => {
                &&& self.path_fits(path)
                &&& request.method == method
                &&& request.url@ == url_with_path(self.given_url(), path)
                &&& request.headers.deep_view() == standard_headers(self.token())
            },
            None => !self.path_fits(path),
        }
    }

    /// The URL of a read request: the base URL with its path replaced and,
    /// where the request has query pairs, its query replaced by them.
    pub open spec fn get_url(&self, request: get::RequestView) -> Seq<char> {
        if request.query.len() == 0 {
            url_with_path(self.given_url(), request.endpoint)
        } else {
            url_with_query(self.given_url(), request.endpoint, query_text(request.query))
        }
    }

    /// Whether `r` is what the read request `asked` must be: `None` if and
    /// only if the request cannot be addressed, else the GET request to the
    /// URL of `asked`, with the standard headers and no payload.
    pub open spec fn is_query(&self, r: Option<HttpRequest<()>>, asked: get::RequestView) -> bool {
        match r {
            Some(request) => {
                &&& self.fits(asked)
                &&& request.method == Method::Get
                &&& request.url@ == self.get_url(asked)
                &&& request.headers.deep_view() == standard_headers(self.token())
                &&& request.body is None
            },
            None => !self.fits(asked),
        }
    }

    /// The GET request for `endpoint`: the base URL with its path replaced and
    /// the rest left alone, and the standard headers.
    pub fn build_get_request(&self, endpoint: &str) -> (r: Option<HttpRequest<()>>)
        ensures
            self.is_request(r, Method::Get, endpoint@),
            r matches Some(request) ==> request.body is None,
    {
        match self.address(endpoint) {
            Some(url) => Some(
                HttpRequest { method: Method::Get, url, headers: self.headers(), body: None },
            ),
            None => None,
        }
    }

    /// The POST request for `endpoint`, without a payload.
    pub fn build_post_request(&self, endpoint: &str) -> (r: Option<HttpRequest<()>>)
        ensures
            self.is_request(r, Method::Post, endpoint@),
            r matches Some(request) ==> request.body is None,
    {
        match self.address(endpoint) {
            Some(url) => Some(
                HttpRequest { method: Method::Post, url, headers: self.headers(), body: None },
            ),
            None => None,
        }
    }

    /// The GET request for a path with query pairs. The pairs are written as
    /// `name=value` joined by `&`, names and values escaped; a request without
    /// pairs leaves the query of the base URL alone.
    pub fn build_get_request_with_query(&self, query_params: get::Request) -> (r: Option<
        HttpRequest<()>,
    >)
        ensures
            self.is_query(r, query_params@),
    {
        if query_params.query.len() == 0 {
            return self.build_get_request(query_params.endpoint.as_str());
        }
        proof {
            use_type_invariant(self);
        }
        let query_string = query_string(&query_params.query);
        if !room(self.url.as_str(), query_params.endpoint.as_str(), query_string.as_str()) {
            return None;
        }
        let url = url_set_query(
            self.given.as_str(),
            query_params.endpoint.as_str(),
            query_string.as_str(),
        );
        Some(HttpRequest { method: Method::Get, url, headers: self.headers(), body: None })
    }

    /// The POST request for a path with a payload.
    pub fn build_post_request_with_query<S>(&self, query_params: post::Request<S>) -> (r: Option<
        HttpRequest<S>,
    >)
        ensures
            self.is_request(r, Method::Post, query_params.endpoint@),
            r matches Some(request) ==> request.body == Some(query_params.body),
    {
        match self.address(query_params.endpoint.as_str()) {
            Some(url) => Some(
                HttpRequest {
                    method: Method::Post,
                    url,
                    headers: self.headers(),
                    body: Some(query_params.body),
                },
            ),
            None => None,
        }
    }

    /// The request for the status of the API. The reply is a
    /// [`get::ApiStatusResponse`]: its message is `API running.` while the API
    /// is up.
    pub fn get_api_status(&self) -> (r: Option<HttpRequest<()>>)
        ensures
            self.is_request(r, Method::Get, "/api/"@),
            r matches Some(request) ==> request.body is None,
    {
        self.build_get_request("/api/")
    }

    /// The request for the configuration of the hub. The reply is a
    /// [`get::ConfigResponse`].
    pub fn get_config(&self) -> (r: Option<HttpRequest<()>>)
        ensures
            self.is_request(r, Method::Get, "/api/config"@),
            r matches Some(request) ==> request.body is None,
    {
        self.build_get_request("/api/config")
    }

    /// The request for the kinds of events and their listeners. The reply is a
    /// [`get::EventsResponse`].
    pub fn get_events(&self) -> (r: Option<HttpRequest<()>>)
        ensures
            self.is_request(r, Method::Get, "/api/events"@),
            r matches Some(request) ==> request.body is None,
    {
        self.build_get_request("/api/events")
    }

    /// The request for the services of each domain. The reply is a
    /// [`get::ServicesResponse`].
    pub fn get_services(&self) -> (r: Option<HttpRequest<()>>)
        ensures
            self.is_request(r, Method::Get, "/api/services"@),
            r matches Some(request) ==> request.body is None,
    {
        self.build_get_request("/api/services")
    }

    /// The request for the states of all entities. The reply is a
    /// [`get::StatesResponse`].
    pub fn get_states(&self) -> (r: Option<HttpRequest<()>>)
        ensures
            self.is_request(r, Method::Get, "/api/states"@),
            r matches Some(request) ==> request.body is None,
    {
        self.build_get_request("/api/states")
    }

    /// The request for the errors logged in this session. The reply is plain
    /// text.
    pub fn get_error_log(&self) -> (r: Option<HttpRequest<()>>)
        ensures
            self.is_request(r, Method::Get, "/api/error_log"@),
            r matches Some(request) ==> request.body is None,
    {
        self.build_get_request("/api/error_log")
    }

    /// The request for the calendars of the hub. The reply is a
    /// [`get::CalendarsResponse`].
    pub fn get_calendars(&self) -> (r: Option<HttpRequest<()>>)
        ensures
            self.is_request(r, Method::Get, "/api/calendars"@),
            r matches Some(request) ==> request.body is None,
    {
        self.build_get_request("/api/calendars")
    }

    /// The request to check the configuration. It carries no payload, and the
    /// reply is a [`post::CheckConfigResponse`].
    pub fn post_config_check(&self) -> (r: Option<HttpRequest<()>>)
        ensures
            self.is_request(r, Method::Post, "/api/config/core/check_config"@),
            r matches Some(request) ==> request.body is None,
    {
        self.build_post_request("/api/config/core/check_config")
    }

    /// The GET request that a set of parameters stands for.
    pub fn get_request_with_query<Q: Parameters>(&self, queryable: Q) -> (r: Option<
        HttpRequest<()>,
    >)
        ensures
            self.is_query(r, queryable.request()),
    {
        self.build_get_request_with_query(queryable.into_request())
    }

    /// The request for a part of the recorded history. The reply is a
    /// [`get::HistoryResponse`].
    pub fn get_history(&self, params: get::HistoryParams) -> (r: Option<HttpRequest<()>>)
        ensures
            self.is_query(r, params.request()),
    {
        self.get_request_with_query(params)
    }

    /// The request for a part of the logbook. The reply is a
    /// [`get::LogbookResponse`].
    pub fn get_logbook(&self, params: get::LogbookParams) -> (r: Option<HttpRequest<()>>)
        ensures
            self.is_query(r, params.request()),
    {
        self.get_request_with_query(params)
    }

    /// The request for the events of one calendar. The reply is a
    /// [`get::CalendarsEntityResponse`].
    pub fn get_calendars_of_entity(&self, params: get::CalendarsParams) -> (r: Option<
        HttpRequest<()>,
    >)
        ensures
            self.is_query(r, params.request()),
    {
        self.get_request_with_query(params)
    }

    /// The request for the state of one entity. The reply is a
    /// [`get::StatesEntityResponse`].
    pub fn get_states_of_entity(&self, entity_id: &str) -> (r: Option<HttpRequest<()>>)
        ensures
            self.is_request(r, Method::Get, "/api/states/"@ + entity_id@),
            r matches Some(request) ==> request.body is None,
    {
        let endpoint = concat("/api/states/", entity_id);
        self.build_get_request(endpoint.as_str())
    }

    /// The request that writes the state of an entity. The reply is a
    /// [`post::StateResponse`].
    pub fn post_states(&self, params: post::StateParams) -> (r: Option<
        HttpRequest<post::StateRequestBody>,
    >)
        ensures
            self.is_request(r, Method::Post, params.endpoint()),
            r matches Some(request) ==> request.body == Some(params.body()),
    {
        self.build_post_request_with_query(params.into_request())
    }

    /// The request that fires an event. Where the parameters hold event
    /// data it goes as the payload; where they hold none the request has no
    /// payload at all. The reply is a [`post::EventResponse`].
    pub fn post_events(&self, params: post::EventParams) -> (r: Option<HttpRequest<Json>>)
        ensures
            self.is_request(r, Method::Post, params.endpoint()),
            r matches Some(request) ==> request.body == params.event_data,
    {
        let request = params.into_request();
        let builder = match self.build_post_request(request.endpoint.as_str()) {
            Some(builder) => builder,
            None => {
                return None;
            },
        };
        Some(
            match request.body {
                Some(data) => HttpRequest {
                    method: builder.method,
                    url: builder.url,
                    headers: builder.headers,
                    body: Some(data),
                },
                None => HttpRequest {
                    method: builder.method,
                    url: builder.url,
                    headers: builder.headers,
                    body: None,
                },
            },
        )
    }

    /// The request that renders a template. The reply is plain text.
    pub fn post_template(&self, params: post::TemplateParams) -> (r: Option<
        HttpRequest<post::TemplateRequestBody>,
    >)
        ensures
            self.is_request(r, Method::Post, params.endpoint()),
            r matches Some(request) ==> request.body == Some(params.body()),
    {
        self.build_post_request_with_query(params.into_request())
    }
}

/// What reading a reply as an `R` gives. `parsed` is what the JSON parser
/// made of the reply: the value, or its message for a reply that is no JSON.
pub open spec fn reading<R: Decode>(parsed: Result<Json, String>) -> Result<
    <R as DeepView>::V,
    DecodeFailure,
> {
    match parsed {
        Ok(json) => R::decoding(json.deep_view()),
        Err(message) => Err(failure(DecodeErrorKind::Syntax, message@)),
    }
}

/// The reply as text for a failure report: the text that its bytes encode
/// or, where they are not UTF-8, a note that says so.
pub open spec fn reply_text(body: Seq<u8>) -> Seq<char> {
    if valid_utf8(body) {
        decode_utf8(body)
    } else {
        "Failed to convert bytes to string"@
    }
}

/// Reads a reply as an `R`.
pub fn read<R: Decode>(parsed: Result<Json, String>) -> (r: Result<R, DecodeError>)
    ensures
        decoded(r) == reading::<R>(parsed),
{
    match parsed {
        Ok(json) => R::decode(&json),
        Err(message) => Err(DecodeError::with_text(DecodeErrorKind::Syntax, message.as_str())),
    }
}

/// Reads a reply as an `R`; a reply that cannot be read so fails as
/// `DeserializeFailed`.
pub fn json_response<R: Decode>(parsed: Result<Json, String>) -> (r: Result<R, Error>)
    ensures
        match r {
            Ok(value) => reading::<R>(parsed) == Ok::<<R as DeepView>::V, DecodeFailure>(
                value.deep_view(),
            ),
            Err(Error::DeserializeFailed(e)) => reading::<R>(parsed) == Err::<
                <R as DeepView>::V,
                DecodeFailure,
            >(e.deep_view()),
            Err(_) => false,
        },
{
    match read::<R>(parsed) {
        Ok(value) => Ok(value),
        Err(e) => Err(Error::DeserializeFailed(e)),
    }
}

/// The bytes of a reply as text for a failure report.
pub fn response_text(body: &[u8]) -> (r: String)
    ensures
        r@ == reply_text(body@),
{
    match text_from_utf8(body) {
        Some(text) => String::from_str(text),
        None => String::from_str("Failed to convert bytes to string"),
    }
}

/// Reads a reply as an `R`; a reply that cannot be read so fails as
/// `DeserializeFailed`, with the path to the offending value in the failure
/// and the whole reply as text beside it.
pub fn json_response_with_debugging<R: Decode>(parsed: Result<Json, String>, body: &[u8]) -> (r:
    Result<R, DebuggingError>)
    ensures
        match r {
            Ok(value) => reading::<R>(parsed) == Ok::<<R as DeepView>::V, DecodeFailure>(
                value.deep_view(),
            ),
            Err(DebuggingError::DeserializeFailed { error, response }) => {
                &&& reading::<R>(parsed) == Err::<<R as DeepView>::V, DecodeFailure>(
                    error.deep_view(),
                )
                &&& response@ == reply_text(body@)
            },
            Err(_) => false,
        },
{
    match read::<R>(parsed) {
        Ok(value) => Ok(value),
        Err(error) => Err(
            DebuggingError::DeserializeFailed { error, response: response_text(body) },
        ),
    }
}

} // verus!
