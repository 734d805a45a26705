//! Requests that read from the hub, and the records they are answered with.

use vstd::prelude::*;
use vstd::std_specs::cmp::PartialEqSpecImpl;
use crate::datetime::{
    rfc3339_opts_text,
    rfc3339_text,
    Instant,
    PlainDate,
    SecondsFormat,
    Timestamp,
};
use crate::deserialize::{
    invalid_type,
    json_date,
    json_object,
    json_timestamp,
    object,
    optional,
    optional_field,
    required,
    required_field,
    Attributes,
    Decode,
};
use crate::errors::{failure_within, DecodeError, DecodeErrorKind, DecodeFailure, Step};
use crate::json::{Json, JsonValue, Number};
use crate::state_enum::{StateEnum, StateValue};
use crate::text::{concat, join, joined, str_eq};

verus! {

/// A read request: the path to ask, and the query pairs in the order they
/// are sent.
#[derive(Debug)]
pub struct Request {
    pub endpoint: String,
    pub query: Vec<(String, String)>,
}

/// What a [`Request`] holds, as plain text.
pub struct RequestView {
    pub endpoint: Seq<char>,
    pub query: Seq<(Seq<char>, Seq<char>)>,
}

impl View for Request {
    type V = RequestView;

    open spec fn view(&self) -> RequestView {
        RequestView { endpoint: self.endpoint@, query: self.query.deep_view() }
    }
}

/// Parameters that know which read request they stand for.
pub trait Parameters: Sized {
    /// The request that these parameters stand for.
    spec fn request(&self) -> RequestView;

    /// Turns the parameters into their request. Nothing is read or sent, and
    /// nothing is asked of the parameters. The path of the request begins
    /// with `/`.
    fn into_request(self) -> (r: Request)
        ensures
            r@ == self.request(),
            begins_with_slash(r.endpoint@),
    ;
}

/// Whether a path begins with `/`.
pub open spec fn begins_with_slash(path: Seq<char>) -> bool {
    path.len() > 0 && path[0] == '/'
}

/// Turning parameters into a request is a function of the parameters alone:
/// it is defined for all of them, and doing it twice for the same parameters
/// gives the same request twice.
pub proof fn lemma_into_request_is_a_function<P: Parameters>(
    params: P,
    first: Request,
    second: Request,
)
    requires
        first@ == params.request(),
        second@ == params.request(),
    ensures
        first@ == second@,
        first.endpoint@ == second.endpoint@,
        first.query.deep_view() == second.query.deep_view(),
{
}

/// `query` with the pair `(key, value)` added at the end where `present` holds.
pub open spec fn with_pair(
    query: Seq<(Seq<char>, Seq<char>)>,
    present: bool,
    key: Seq<char>,
    value: Seq<char>,
) -> Seq<(Seq<char>, Seq<char>)> {
    if present {
        query.push((key, value))
    } else {
        query
    }
}

/// The RFC 3339 text of a timestamp in its own offset.
pub open spec fn timestamp_text(t: Timestamp) -> Seq<char> {
    rfc3339_text(t.seconds(), t.subsec_nanos(), t.offset_seconds())
}

/// The RFC 3339 text of a timestamp with milliseconds, and `Z` for UTC.
pub open spec fn timestamp_millis_text(t: Timestamp) -> Seq<char> {
    rfc3339_opts_text(
        t.seconds(),
        t.subsec_nanos(),
        t.offset_seconds(),
        SecondsFormat::Millis,
        true,
    )
}

/// The text of an optional timestamp, empty where there is none.
pub open spec fn optional_timestamp_text(t: Option<Timestamp>) -> Seq<char> {
    match t {
        Some(t) => timestamp_text(t),
        None => Seq::empty(),
    }
}

/// `base`, followed by `/` and the text of `start` where there is one.
pub open spec fn path_from(base: Seq<char>, start: Option<Timestamp>) -> Seq<char> {
    match start {
        Some(t) => base + ("/"@ + timestamp_text(t)),
        None => base,
    }
}

fn push_pair(query: &mut Vec<(String, String)>, key: &str, value: String)
    ensures
        final(query).deep_view() == old(query).deep_view().push((key@, value@)),
{
    query.push((String::from_str(key), value));
}

fn path_with_start(base: &str, start: &Option<Timestamp>) -> (r: String)
    ensures
        r@ == path_from(base@, *start),
        begins_with_slash(base@) ==> begins_with_slash(r@),
{
    let mut endpoint = String::from_str(base);
    if let Some(start_time) = start {
        let suffix = concat("/", start_time.to_rfc3339().as_str());
        endpoint.append(suffix.as_str());
    }
    endpoint
}

/// Which part of the recorded history to ask for.
pub struct HistoryParams {
    pub filter_entity_ids: Option<Vec<String>>,
    pub start_time: Option<Timestamp>,
    pub end_time: Option<Timestamp>,
    pub minimal_response: bool,
    pub no_attributes: bool,
    pub significant_changes_only: bool,
}

impl Default for HistoryParams {
    fn default() -> (r: HistoryParams)
        ensures
            r.filter_entity_ids is None,
            r.start_time is None,
            r.end_time is None,
            !r.minimal_response,
            !r.no_attributes,
            !r.significant_changes_only,
    {
        HistoryParams {
            filter_entity_ids: None,
            start_time: None,
            end_time: None,
            minimal_response: false,
            no_attributes: false,
            significant_changes_only: false,
        }
    }
}

impl HistoryParams {
    /// The entity ids to filter by, joined with commas; empty where no filter is set.
    pub open spec fn filter_text(&self) -> Seq<char> {
        match self.filter_entity_ids {
            Some(ids) => joined(ids.deep_view(), ","@),
            None => Seq::empty(),
        }
    }
}

impl Parameters for HistoryParams {
    /// The path is `/api/history/period`, followed by `/` and the start time
    /// where one is set. The query holds, in this order and each only where it
    /// is set: the entity filter, the end time and the three flags, a flag
    /// being sent as `true`.
    open spec fn request(&self) -> RequestView {
        let q0 = Seq::<(Seq<char>, Seq<char>)>::empty();
        let q1 = with_pair(
            q0,
            self.filter_entity_ids is Some,
            "filter_entity_ids"@,
            self.filter_text(),
        );
        let q2 = with_pair(
            q1,
            self.end_time is Some,
            "end_time"@,
            optional_timestamp_text(self.end_time),
        );
        let q3 = with_pair(q2, self.minimal_response, "minimal_response"@, "true"@);
        let q4 = with_pair(q3, self.no_attributes, "no_attributes"@, "true"@);
        let q5 = with_pair(q4, self.significant_changes_only, "significant_changes_only"@, "true"@);
        RequestView { endpoint: path_from("/api/history/period"@, self.start_time), query: q5 }
    }

    fn into_request(self) -> (r: Request) {
        let mut query: Vec<(String, String)> = Vec::new();
        assert(query.deep_view() =~= Seq::<(Seq<char>, Seq<char>)>::empty());
        proof {
            reveal_strlit("/api/history/period");
        }
        let endpoint = path_with_start("/api/history/period", &self.start_time);
        if let Some(ref filter_entity_ids) = self.filter_entity_ids {
            push_pair(&mut query, "filter_entity_ids", join(filter_entity_ids, ","));
        }
        if let Some(ref end_time) = self.end_time {
            push_pair(&mut query, "end_time", end_time.to_rfc3339());
        }
        if self.minimal_response {
            push_pair(&mut query, "minimal_response", String::from_str("true"));
        }
        if self.no_attributes {
            push_pair(&mut query, "no_attributes", String::from_str("true"));
        }
        if self.significant_changes_only {
            push_pair(&mut query, "significant_changes_only", String::from_str("true"));
        }
        Request { endpoint, query }
    }
}

/// Which part of the logbook to ask for.
pub struct LogbookParams {
    pub entity: Option<String>,
    pub start_time: Option<Timestamp>,
    pub end_time: Option<Timestamp>,
}

impl Default for LogbookParams {
    fn default() -> (r: LogbookParams)
        ensures
            r.entity is None,
            r.start_time is None,
            r.end_time is None,
    {
        LogbookParams { entity: None, start_time: None, end_time: None }
    }
}

impl LogbookParams {
    /// The entity to filter by; empty where none is set.
    pub open spec fn entity_text(&self) -> Seq<char> {
        match self.entity {
            Some(entity) => entity@,
            None => Seq::empty(),
        }
    }
}

impl Parameters for LogbookParams {
    /// The path is `/api/logbook`, followed by `/` and the start time where
    /// one is set. The query holds the entity and then the end time, each only
    /// where it is set.
    open spec fn request(&self) -> RequestView {
        let q0 = Seq::<(Seq<char>, Seq<char>)>::empty();
        let q1 = with_pair(q0, self.entity is Some, "entity"@, self.entity_text());
        let q2 = with_pair(
            q1,
            self.end_time is Some,
            "end_time"@,
            optional_timestamp_text(self.end_time),
        );
        RequestView { endpoint: path_from("/api/logbook"@, self.start_time), query: q2 }
    }

    fn into_request(self) -> (r: Request) {
        let mut query: Vec<(String, String)> = Vec::new();
        assert(query.deep_view() =~= Seq::<(Seq<char>, Seq<char>)>::empty());
        proof {
            reveal_strlit("/api/logbook");
        }
        let endpoint = path_with_start("/api/logbook", &self.start_time);
        if let Some(ref entity) = self.entity {
            push_pair(&mut query, "entity", entity.clone());
        }
        if let Some(ref end_time) = self.end_time {
            push_pair(&mut query, "end_time", end_time.to_rfc3339());
        }
        Request { endpoint, query }
    }
}

/// Which events of one calendar to ask for.
pub struct CalendarsParams {
    pub entity_id: String,
    pub start_time: Timestamp,
    pub end_time: Timestamp,
}

impl Default for CalendarsParams {
    fn default() -> (r: CalendarsParams)
        ensures
            r.entity_id@ == Seq::<char>::empty(),
            r.start_time.is_epoch(),
            r.end_time.is_epoch(),
    {
        CalendarsParams {
            entity_id: String::new(),
            start_time: Timestamp::default(),
            end_time: Timestamp::default(),
        }
    }
}

impl Parameters for CalendarsParams {
    /// The path is `/api/calendars/` followed by the entity id. The query holds
    /// `start` and then `end`, each written with milliseconds and with `Z` for
    /// UTC.
    open spec fn request(&self) -> RequestView {
        RequestView {
            endpoint: "/api/calendars/"@ + self.entity_id@,
            query: seq![
                ("start"@, timestamp_millis_text(self.start_time)),
                ("end"@, timestamp_millis_text(self.end_time)),
            ],
        }
    }

    fn into_request(self) -> (r: Request) {
        let mut query: Vec<(String, String)> = Vec::new();
        proof {
            reveal_strlit("/api/calendars/");
        }
        let endpoint = concat("/api/calendars/", self.entity_id.as_str());
        push_pair(&mut query, "start", self.start_time.to_rfc3339_opts(SecondsFormat::Millis, true));
        push_pair(&mut query, "end", self.end_time.to_rfc3339_opts(SecondsFormat::Millis, true));
        let r = Request { endpoint, query };
        assert(r@.query =~= self.request().query);
        r
    }
}

/// Whether the API is up: the reply to `/api/`.
#[derive(Debug, PartialEq, Eq)]
pub struct ApiStatusResponse {
    pub message: String,
}

/// What a [`ApiStatusResponse`] holds, as plain values.
pub struct ApiStatusView {
    pub message: Seq<char>,
}

impl DeepView for ApiStatusResponse {
    type V = ApiStatusView;

    open spec fn deep_view(&self) -> ApiStatusView {
        ApiStatusView {
            message: self.message.deep_view(),
        }
    }
}

impl Decode for ApiStatusResponse {
    /// Read from an object, member by member in the order of the fields;
    /// the first member that cannot be read makes the whole fail. Every
    /// member is required.
    open spec fn decoding(json: JsonValue) -> Result<ApiStatusView, DecodeFailure> {
        match json_object(json) {
            Err(e) => Err(e),
            Ok(m) => {
                let message = required_field::<String>(m, "message"@);
                if message is Err {
                    Err(message->Err_0)
                } else {
                    Ok(
                        ApiStatusView {
                            message: message->Ok_0,
                        },
                    )
                }
            },
        }
    }

    fn decode(json: &Json) -> (r: Result<ApiStatusResponse, DecodeError>) {
        let m = object(json)?;
        let message = required::<String>(m, "message")?;
        Ok(ApiStatusResponse { message })
    }
}

/// The units the hub measures in.
#[derive(Debug, PartialEq, Eq)]
pub struct UnitSystemConfig {
    pub length: String,
    pub mass: String,
    pub temperature: String,
    pub volume: String,
}

/// What a [`UnitSystemConfig`] holds, as plain values.
pub struct UnitSystemView {
    pub length: Seq<char>,
    pub mass: Seq<char>,
    pub temperature: Seq<char>,
    pub volume: Seq<char>,
}

impl DeepView for UnitSystemConfig {
    type V = UnitSystemView;

    open spec fn deep_view(&self) -> UnitSystemView {
        UnitSystemView {
            length: self.length.deep_view(),
            mass: self.mass.deep_view(),
            temperature: self.temperature.deep_view(),
            volume: self.volume.deep_view(),
        }
    }
}

impl Decode for UnitSystemConfig {
    /// Read from an object, member by member in the order of the fields;
    /// the first member that cannot be read makes the whole fail. Every
    /// member is required.
    open spec fn decoding(json: JsonValue) -> Result<UnitSystemView, DecodeFailure> {
        match json_object(json) {
            Err(e) => Err(e),
            Ok(m) => {
                let length = required_field::<String>(m, "length"@);
                let mass = required_field::<String>(m, "mass"@);
                let temperature = required_field::<String>(m, "temperature"@);
                let volume = required_field::<String>(m, "volume"@);
                if length is Err {
                    Err(length->Err_0)
                } else if mass is Err {
                    Err(mass->Err_0)
                } else if temperature is Err {
                    Err(temperature->Err_0)
                } else if volume is Err {
                    Err(volume->Err_0)
                } else {
                    Ok(
                        UnitSystemView {
                            length: length->Ok_0,
                            mass: mass->Ok_0,
                            temperature: temperature->Ok_0,
                            volume: volume->Ok_0,
                        },
                    )
                }
            },
        }
    }

    fn decode(json: &Json) -> (r: Result<UnitSystemConfig, DecodeError>) {
        let m = object(json)?;
        let length = required::<String>(m, "length")?;
        let mass = required::<String>(m, "mass")?;
        let temperature = required::<String>(m, "temperature")?;
        let volume = required::<String>(m, "volume")?;
        Ok(UnitSystemConfig { length, mass, temperature, volume })
    }
}

/// The configuration of the hub: the reply to `/api/config`. Latitude and longitude are kept as the numbers the hub wrote.
#[derive(Debug, PartialEq, Eq)]
pub struct ConfigResponse {
    pub components: Vec<String>,
    pub config_dir: String,
    pub elevation: i32,
    pub latitude: Number,
    pub location_name: String,
    pub longitude: Number,
    pub time_zone: String,
    pub unit_system: UnitSystemConfig,
    pub version: String,
    pub whitelist_external_dirs: Vec<String>,
}

/// What a [`ConfigResponse`] holds, as plain values.
pub struct ConfigView {
    pub components: Seq<Seq<char>>,
    pub config_dir: Seq<char>,
    pub elevation: i32,
    pub latitude: Number,
    pub location_name: Seq<char>,
    pub longitude: Number,
    pub time_zone: Seq<char>,
    pub unit_system: UnitSystemView,
    pub version: Seq<char>,
    pub whitelist_external_dirs: Seq<Seq<char>>,
}

impl DeepView for ConfigResponse {
    type V = ConfigView;

    open spec fn deep_view(&self) -> ConfigView {
        ConfigView {
            components: self.components.deep_view(),
            config_dir: self.config_dir.deep_view(),
            elevation: self.elevation.deep_view(),
            latitude: self.latitude.deep_view(),
            location_name: self.location_name.deep_view(),
            longitude: self.longitude.deep_view(),
            time_zone: self.time_zone.deep_view(),
            unit_system: self.unit_system.deep_view(),
            version: self.version.deep_view(),
            whitelist_external_dirs: self.whitelist_external_dirs.deep_view(),
        }
    }
}

impl Decode for ConfigResponse {
    /// Read from an object, member by member in the order of the fields;
    /// the first member that cannot be read makes the whole fail. Every
    /// member is required.
    open spec fn decoding(json: JsonValue) -> Result<ConfigView, DecodeFailure> {
        match json_object(json) {
            Err(e) => Err(e),
            Ok(m) => {
                let components = required_field::<Vec<String>>(m, "components"@);
                let config_dir = required_field::<String>(m, "config_dir"@);
                let elevation = required_field::<i32>(m, "elevation"@);
                let latitude = required_field::<Number>(m, "latitude"@);
                let location_name = required_field::<String>(m, "location_name"@);
                let longitude = required_field::<Number>(m, "longitude"@);
                let time_zone = required_field::<String>(m, "time_zone"@);
                let unit_system = required_field::<UnitSystemConfig>(m, "unit_system"@);
                let version = required_field::<String>(m, "version"@);
                let whitelist_external_dirs = required_field::<Vec<String>>(m, "whitelist_external_dirs"@);
                if components is Err {
                    Err(components->Err_0)
                } else if config_dir is Err {
                    Err(config_dir->Err_0)
                } else if elevation is Err {
                    Err(elevation->Err_0)
                } else if latitude is Err {
                    Err(latitude->Err_0)
                } else if location_name is Err {
                    Err(location_name->Err_0)
                } else if longitude is Err {
                    Err(longitude->Err_0)
                } else if time_zone is Err {
                    Err(time_zone->Err_0)
                } else if unit_system is Err {
                    Err(unit_system->Err_0)
                } else if version is Err {
                    Err(version->Err_0)
                } else if whitelist_external_dirs is Err {
                    Err(whitelist_external_dirs->Err_0)
                } else {
                    Ok(
                        ConfigView {
                            components: components->Ok_0,
                            config_dir: config_dir->Ok_0,
                            elevation: elevation->Ok_0,
                            latitude: latitude->Ok_0,
                            location_name: location_name->Ok_0,
                            longitude: longitude->Ok_0,
                            time_zone: time_zone->Ok_0,
                            unit_system: unit_system->Ok_0,
                            version: version->Ok_0,
                            whitelist_external_dirs: whitelist_external_dirs->Ok_0,
                        },
                    )
                }
            },
        }
    }

    fn decode(json: &Json) -> (r: Result<ConfigResponse, DecodeError>) {
        let m = object(json)?;
        let components = required::<Vec<String>>(m, "components")?;
        let config_dir = required::<String>(m, "config_dir")?;
        let elevation = required::<i32>(m, "elevation")?;
        let latitude = required::<Number>(m, "latitude")?;
        let location_name = required::<String>(m, "location_name")?;
        let longitude = required::<Number>(m, "longitude")?;
        let time_zone = required::<String>(m, "time_zone")?;
        let unit_system = required::<UnitSystemConfig>(m, "unit_system")?;
        let version = required::<String>(m, "version")?;
        let whitelist_external_dirs = required::<Vec<String>>(m, "whitelist_external_dirs")?;
        Ok(ConfigResponse { components, config_dir, elevation, latitude, location_name, longitude, time_zone, unit_system, version, whitelist_external_dirs })
    }
}

/// One kind of event and how many listen for it.
#[derive(Debug, PartialEq, Eq)]
pub struct EventEntry {
    pub event: String,
    pub listener_count: i32,
}

/// What a [`EventEntry`] holds, as plain values.
pub struct EventView {
    pub event: Seq<char>,
    pub listener_count: i32,
}

impl DeepView for EventEntry {
    type V = EventView;

    open spec fn deep_view(&self) -> EventView {
        EventView {
            event: self.event.deep_view(),
            listener_count: self.listener_count.deep_view(),
        }
    }
}

impl Decode for EventEntry {
    /// Read from an object, member by member in the order of the fields;
    /// the first member that cannot be read makes the whole fail. Every
    /// member is required.
    open spec fn decoding(json: JsonValue) -> Result<EventView, DecodeFailure> {
        match json_object(json) {
            Err(e) => Err(e),
            Ok(m) => {
                let event = required_field::<String>(m, "event"@);
                let listener_count = required_field::<i32>(m, "listener_count"@);
                if event is Err {
                    Err(event->Err_0)
                } else if listener_count is Err {
                    Err(listener_count->Err_0)
                } else {
                    Ok(
                        EventView {
                            event: event->Ok_0,
                            listener_count: listener_count->Ok_0,
                        },
                    )
                }
            },
        }
    }

    fn decode(json: &Json) -> (r: Result<EventEntry, DecodeError>) {
        let m = object(json)?;
        let event = required::<String>(m, "event")?;
        let listener_count = required::<i32>(m, "listener_count")?;
        Ok(EventEntry { event, listener_count })
    }
}

/// One domain and the services it offers.
#[derive(Debug, PartialEq, Eq)]
pub struct ServiceEntry {
    pub domain: String,
    pub services: Vec<String>,
}

/// What a [`ServiceEntry`] holds, as plain values.
pub struct ServiceView {
    pub domain: Seq<char>,
    pub services: Seq<Seq<char>>,
}

impl DeepView for ServiceEntry {
    type V = ServiceView;

    open spec fn deep_view(&self) -> ServiceView {
        ServiceView {
            domain: self.domain.deep_view(),
            services: self.services.deep_view(),
        }
    }
}

impl Decode for ServiceEntry {
    /// Read from an object, member by member in the order of the fields;
    /// the first member that cannot be read makes the whole fail. Every
    /// member is required.
    open spec fn decoding(json: JsonValue) -> Result<ServiceView, DecodeFailure> {
        match json_object(json) {
            Err(e) => Err(e),
            Ok(m) => {
                let domain = required_field::<String>(m, "domain"@);
                let services = required_field::<Vec<String>>(m, "services"@);
                if domain is Err {
                    Err(domain->Err_0)
                } else if services is Err {
                    Err(services->Err_0)
                } else {
                    Ok(
                        ServiceView {
                            domain: domain->Ok_0,
                            services: services->Ok_0,
                        },
                    )
                }
            },
        }
    }

    fn decode(json: &Json) -> (r: Result<ServiceEntry, DecodeError>) {
        let m = object(json)?;
        let domain = required::<String>(m, "domain")?;
        let services = required::<Vec<String>>(m, "services")?;
        Ok(ServiceEntry { domain, services })
    }
}

/// One recorded state of an entity. A minimal reply leaves out everything that did not change.
#[derive(Debug, PartialEq, Eq)]
pub struct HistoryEntry {
    pub attributes: Option<Attributes>,
    pub entity_id: Option<String>,
    pub last_changed: Option<Timestamp>,
    pub last_updated: Option<Timestamp>,
    pub state: Option<StateEnum>,
}

/// What a [`HistoryEntry`] holds, as plain values.
pub struct HistoryView {
    pub attributes: Option<Seq<(Seq<char>, JsonValue)>>,
    pub entity_id: Option<Seq<char>>,
    pub last_changed: Option<Instant>,
    pub last_updated: Option<Instant>,
    pub state: Option<StateValue>,
}

impl DeepView for HistoryEntry {
    type V = HistoryView;

    open spec fn deep_view(&self) -> HistoryView {
        HistoryView {
            attributes: self.attributes.deep_view(),
            entity_id: self.entity_id.deep_view(),
            last_changed: self.last_changed.deep_view(),
            last_updated: self.last_updated.deep_view(),
            state: self.state.deep_view(),
        }
    }
}

impl Decode for HistoryEntry {
    /// Read from an object, member by member in the order of the fields;
    /// the first member that cannot be read makes the whole fail. No member
    /// is required.
    open spec fn decoding(json: JsonValue) -> Result<HistoryView, DecodeFailure> {
        match json_object(json) {
            Err(e) => Err(e),
            Ok(m) => {
                let attributes = optional_field::<Attributes>(m, "attributes"@);
                let entity_id = optional_field::<String>(m, "entity_id"@);
                let last_changed = optional_field::<Timestamp>(m, "last_changed"@);
                let last_updated = optional_field::<Timestamp>(m, "last_updated"@);
                let state = optional_field::<StateEnum>(m, "state"@);
                if attributes is Err {
                    Err(attributes->Err_0)
                } else if entity_id is Err {
                    Err(entity_id->Err_0)
                } else if last_changed is Err {
                    Err(last_changed->Err_0)
                } else if last_updated is Err {
                    Err(last_updated->Err_0)
                } else if state is Err {
                    Err(state->Err_0)
                } else {
                    Ok(
                        HistoryView {
                            attributes: attributes->Ok_0,
                            entity_id: entity_id->Ok_0,
                            last_changed: last_changed->Ok_0,
                            last_updated: last_updated->Ok_0,
                            state: state->Ok_0,
                        },
                    )
                }
            },
        }
    }

    fn decode(json: &Json) -> (r: Result<HistoryEntry, DecodeError>) {
        let m = object(json)?;
        let attributes = optional::<Attributes>(m, "attributes")?;
        let entity_id = optional::<String>(m, "entity_id")?;
        let last_changed = optional::<Timestamp>(m, "last_changed")?;
        let last_updated = optional::<Timestamp>(m, "last_updated")?;
        let state = optional::<StateEnum>(m, "state")?;
        Ok(HistoryEntry { attributes, entity_id, last_changed, last_updated, state })
    }
}

/// One line of the logbook.
#[derive(Debug, PartialEq, Eq)]
pub struct LogbookEntry {
    pub domain: Option<String>,
    pub entity_id: Option<String>,
    pub message: Option<String>,
    pub name: Option<String>,
    pub when: Option<Timestamp>,
}

/// What a [`LogbookEntry`] holds, as plain values.
pub struct LogbookView {
    pub domain: Option<Seq<char>>,
    pub entity_id: Option<Seq<char>>,
    pub message: Option<Seq<char>>,
    pub name: Option<Seq<char>>,
    pub when: Option<Instant>,
}

impl DeepView for LogbookEntry {
    type V = LogbookView;

    open spec fn deep_view(&self) -> LogbookView {
        LogbookView {
            domain: self.domain.deep_view(),
            entity_id: self.entity_id.deep_view(),
            message: self.message.deep_view(),
            name: self.name.deep_view(),
            when: self.when.deep_view(),
        }
    }
}

impl Decode for LogbookEntry {
    /// Read from an object, member by member in the order of the fields;
    /// the first member that cannot be read makes the whole fail. No member
    /// is required.
    open spec fn decoding(json: JsonValue) -> Result<LogbookView, DecodeFailure> {
        match json_object(json) {
            Err(e) => Err(e),
            Ok(m) => {
                let domain = optional_field::<String>(m, "domain"@);
                let entity_id = optional_field::<String>(m, "entity_id"@);
                let message = optional_field::<String>(m, "message"@);
                let name = optional_field::<String>(m, "name"@);
                let when = optional_field::<Timestamp>(m, "when"@);
                if domain is Err {
                    Err(domain->Err_0)
                } else if entity_id is Err {
                    Err(entity_id->Err_0)
                } else if message is Err {
                    Err(message->Err_0)
                } else if name is Err {
                    Err(name->Err_0)
                } else if when is Err {
                    Err(when->Err_0)
                } else {
                    Ok(
                        LogbookView {
                            domain: domain->Ok_0,
                            entity_id: entity_id->Ok_0,
                            message: message->Ok_0,
                            name: name->Ok_0,
                            when: when->Ok_0,
                        },
                    )
                }
            },
        }
    }

    fn decode(json: &Json) -> (r: Result<LogbookEntry, DecodeError>) {
        let m = object(json)?;
        let domain = optional::<String>(m, "domain")?;
        let entity_id = optional::<String>(m, "entity_id")?;
        let message = optional::<String>(m, "message")?;
        let name = optional::<String>(m, "name")?;
        let when = optional::<Timestamp>(m, "when")?;
        Ok(LogbookEntry { domain, entity_id, message, name, when })
    }
}

/// The state of one entity, as listed by `/api/states`.
#[derive(Debug, PartialEq, Eq)]
pub struct StateEntry {
    pub attributes: Attributes,
    pub entity_id: String,
    pub last_changed: Timestamp,
    pub state: Option<StateEnum>,
}

/// What a [`StateEntry`] holds, as plain values.
pub struct StateView {
    pub attributes: Seq<(Seq<char>, JsonValue)>,
    pub entity_id: Seq<char>,
    pub last_changed: Instant,
    pub state: Option<StateValue>,
}

impl DeepView for StateEntry {
    type V = StateView;

    open spec fn deep_view(&self) -> StateView {
        StateView {
            attributes: self.attributes.deep_view(),
            entity_id: self.entity_id.deep_view(),
            last_changed: self.last_changed.deep_view(),
            state: self.state.deep_view(),
        }
    }
}

impl Decode for StateEntry {
    /// Read from an object, member by member in the order of the fields;
    /// the first member that cannot be read makes the whole fail. Required:
    /// `attributes`, `entity_id`, `last_changed`.
    open spec fn decoding(json: JsonValue) -> Result<StateView, DecodeFailure> {
        match json_object(json) {
            Err(e) => Err(e),
            Ok(m) => {
                let attributes = required_field::<Attributes>(m, "attributes"@);
                let entity_id = required_field::<String>(m, "entity_id"@);
                let last_changed = required_field::<Timestamp>(m, "last_changed"@);
                let state = optional_field::<StateEnum>(m, "state"@);
                if attributes is Err {
                    Err(attributes->Err_0)
                } else if entity_id is Err {
                    Err(entity_id->Err_0)
                } else if last_changed is Err {
                    Err(last_changed->Err_0)
                } else if state is Err {
                    Err(state->Err_0)
                } else {
                    Ok(
                        StateView {
                            attributes: attributes->Ok_0,
                            entity_id: entity_id->Ok_0,
                            last_changed: last_changed->Ok_0,
                            state: state->Ok_0,
                        },
                    )
                }
            },
        }
    }

    fn decode(json: &Json) -> (r: Result<StateEntry, DecodeError>) {
        let m = object(json)?;
        let attributes = required::<Attributes>(m, "attributes")?;
        let entity_id = required::<String>(m, "entity_id")?;
        let last_changed = required::<Timestamp>(m, "last_changed")?;
        let state = optional::<StateEnum>(m, "state")?;
        Ok(StateEntry { attributes, entity_id, last_changed, state })
    }
}

/// The state of one entity, as given by `/api/states/<entity_id>`.
#[derive(Debug, PartialEq, Eq)]
pub struct StatesEntityResponse {
    pub attributes: Attributes,
    pub entity_id: String,
    pub last_changed: Timestamp,
    pub last_updated: Timestamp,
    pub state: Option<StateEnum>,
}

/// What a [`StatesEntityResponse`] holds, as plain values.
pub struct EntityStateView {
    pub attributes: Seq<(Seq<char>, JsonValue)>,
    pub entity_id: Seq<char>,
    pub last_changed: Instant,
    pub last_updated: Instant,
    pub state: Option<StateValue>,
}

impl DeepView for StatesEntityResponse {
    type V = EntityStateView;

    open spec fn deep_view(&self) -> EntityStateView {
        EntityStateView {
            attributes: self.attributes.deep_view(),
            entity_id: self.entity_id.deep_view(),
            last_changed: self.last_changed.deep_view(),
            last_updated: self.last_updated.deep_view(),
            state: self.state.deep_view(),
        }
    }
}

impl Decode for StatesEntityResponse {
    /// Read from an object, member by member in the order of the fields;
    /// the first member that cannot be read makes the whole fail. Required:
    /// `attributes`, `entity_id`, `last_changed`, `last_updated`.
    open spec fn decoding(json: JsonValue) -> Result<EntityStateView, DecodeFailure> {
        match json_object(json) {
            Err(e) => Err(e),
            Ok(m) => {
                let attributes = required_field::<Attributes>(m, "attributes"@);
                let entity_id = required_field::<String>(m, "entity_id"@);
                let last_changed = required_field::<Timestamp>(m, "last_changed"@);
                let last_updated = required_field::<Timestamp>(m, "last_updated"@);
                let state = optional_field::<StateEnum>(m, "state"@);
                if attributes is Err {
                    Err(attributes->Err_0)
                } else if entity_id is Err {
                    Err(entity_id->Err_0)
                } else if last_changed is Err {
                    Err(last_changed->Err_0)
                } else if last_updated is Err {
                    Err(last_updated->Err_0)
                } else if state is Err {
                    Err(state->Err_0)
                } else {
                    Ok(
                        EntityStateView {
                            attributes: attributes->Ok_0,
                            entity_id: entity_id->Ok_0,
                            last_changed: last_changed->Ok_0,
                            last_updated: last_updated->Ok_0,
                            state: state->Ok_0,
                        },
                    )
                }
            },
        }
    }

    fn decode(json: &Json) -> (r: Result<StatesEntityResponse, DecodeError>) {
        let m = object(json)?;
        let attributes = required::<Attributes>(m, "attributes")?;
        let entity_id = required::<String>(m, "entity_id")?;
        let last_changed = required::<Timestamp>(m, "last_changed")?;
        let last_updated = required::<Timestamp>(m, "last_updated")?;
        let state = optional::<StateEnum>(m, "state")?;
        Ok(StatesEntityResponse { attributes, entity_id, last_changed, last_updated, state })
    }
}

/// One calendar of the hub.
#[derive(Debug, PartialEq, Eq)]
pub struct CalendarEntry {
    pub entity_id: String,
    pub name: String,
}

/// What a [`CalendarEntry`] holds, as plain values.
pub struct CalendarView {
    pub entity_id: Seq<char>,
    pub name: Seq<char>,
}

impl DeepView for CalendarEntry {
    type V = CalendarView;

    open spec fn deep_view(&self) -> CalendarView {
        CalendarView {
            entity_id: self.entity_id.deep_view(),
            name: self.name.deep_view(),
        }
    }
}

impl Decode for CalendarEntry {
    /// Read from an object, member by member in the order of the fields;
    /// the first member that cannot be read makes the whole fail. Every
    /// member is required.
    open spec fn decoding(json: JsonValue) -> Result<CalendarView, DecodeFailure> {
        match json_object(json) {
            Err(e) => Err(e),
            Ok(m) => {
                let entity_id = required_field::<String>(m, "entity_id"@);
                let name = required_field::<String>(m, "name"@);
                if entity_id is Err {
                    Err(entity_id->Err_0)
                } else if name is Err {
                    Err(name->Err_0)
                } else {
                    Ok(
                        CalendarView {
                            entity_id: entity_id->Ok_0,
                            name: name->Ok_0,
                        },
                    )
                }
            },
        }
    }

    fn decode(json: &Json) -> (r: Result<CalendarEntry, DecodeError>) {
        let m = object(json)?;
        let entity_id = required::<String>(m, "entity_id")?;
        let name = required::<String>(m, "name")?;
        Ok(CalendarEntry { entity_id, name })
    }
}

/// When a calendar event starts or ends: at an instant, or on a day for an
/// event that takes the whole day.
#[derive(Clone, Copy, Debug)]
pub enum DateVariant {
    DateTime(Timestamp),
    Date(PlainDate),
}

/// What a [`DateVariant`] holds, as plain values.
pub enum DateValue {
    DateTime(Instant),
    Date(PlainDate),
}

impl DeepView for DateVariant {
    type V = DateValue;

    open spec fn deep_view(&self) -> DateValue {
        match self {
            DateVariant::DateTime(at) => DateValue::DateTime(at.deep_view()),
            DateVariant::Date(on) => DateValue::Date(*on),
        }
    }
}

impl Decode for DateVariant {
    /// Read from an object with exactly one member: `dateTime` with an
    /// RFC 3339 timestamp, or `date` with a plain date.
    open spec fn decoding(json: JsonValue) -> Result<DateValue, DecodeFailure> {
        match json_object(json) {
            Err(e) => Err(e),
            Ok(m) => if m.len() != 1 {
                Err(invalid_type())
            } else if m[0].0 == "dateTime"@ {
                match json_timestamp(m[0].1) {
                    Ok(at) => Ok(DateValue::DateTime(at)),
                    Err(e) => Err(failure_within(Step::Key("dateTime"@), e)),
                }
            } else if m[0].0 == "date"@ {
                match json_date(m[0].1) {
                    Ok(on) => Ok(DateValue::Date(on)),
                    Err(e) => Err(failure_within(Step::Key("date"@), e)),
                }
            } else {
                Err(invalid_type())
            },
        }
    }

    fn decode(json: &Json) -> (r: Result<DateVariant, DecodeError>) {
        let m = object(json)?;
        if m.len() != 1 {
            return Err(DecodeError::new(DecodeErrorKind::InvalidType));
        }
        if str_eq(m[0].0.as_str(), "dateTime") {
            match Timestamp::decode(&m[0].1) {
                Ok(at) => Ok(DateVariant::DateTime(at)),
                Err(e) => Err(e.in_field("dateTime")),
            }
        } else if str_eq(m[0].0.as_str(), "date") {
            match PlainDate::decode(&m[0].1) {
                Ok(on) => Ok(DateVariant::Date(on)),
                Err(e) => Err(e.in_field("date")),
            }
        } else {
            Err(DecodeError::new(DecodeErrorKind::InvalidType))
        }
    }
}

/// Two of them are equal when both are instants and the same instant, or
/// both are days and the same day.
impl PartialEq for DateVariant {
    fn eq(&self, other: &DateVariant) -> (r: bool) {
        match (self, other) {
            (DateVariant::DateTime(x), DateVariant::DateTime(y)) => *x == *y,
            (DateVariant::Date(x), DateVariant::Date(y)) => *x == *y,
            _ => false,
        }
    }
}

impl Eq for DateVariant {

}

impl PartialEqSpecImpl for DateVariant {
    open spec fn obeys_eq_spec() -> bool {
        true
    }

    open spec fn eq_spec(&self, other: &DateVariant) -> bool {
        match (*self, *other) {
            (DateVariant::DateTime(x), DateVariant::DateTime(y)) => x.seconds() == y.seconds()
                && x.subsec_nanos() == y.subsec_nanos(),
            (DateVariant::Date(x), DateVariant::Date(y)) => x == y,
            _ => false,
        }
    }
}

/// One event of a calendar.
#[derive(Debug, PartialEq, Eq)]
pub struct CalendarsEntityEntry {
    pub summary: String,
    pub start: DateVariant,
    pub end: DateVariant,
    pub location: Option<String>,
    pub description: Option<String>,
    pub uid: Option<String>,
    pub recurrence_id: Option<String>,
    pub rrule: Option<String>,
}

/// What a [`CalendarsEntityEntry`] holds, as plain values.
pub struct CalendarEventView {
    pub summary: Seq<char>,
    pub start: DateValue,
    pub end: DateValue,
    pub location: Option<Seq<char>>,
    pub description: Option<Seq<char>>,
    pub uid: Option<Seq<char>>,
    pub recurrence_id: Option<Seq<char>>,
    pub rrule: Option<Seq<char>>,
}

impl DeepView for CalendarsEntityEntry {
    type V = CalendarEventView;

    open spec fn deep_view(&self) -> CalendarEventView {
        CalendarEventView {
            summary: self.summary.deep_view(),
            start: self.start.deep_view(),
            end: self.end.deep_view(),
            location: self.location.deep_view(),
            description: self.description.deep_view(),
            uid: self.uid.deep_view(),
            recurrence_id: self.recurrence_id.deep_view(),
            rrule: self.rrule.deep_view(),
        }
    }
}

impl Decode for CalendarsEntityEntry {
    /// Read from an object, member by member in the order of the fields;
    /// the first member that cannot be read makes the whole fail. Required:
    /// `summary`, `start`, `end`.
    open spec fn decoding(json: JsonValue) -> Result<CalendarEventView, DecodeFailure> {
        match json_object(json) {
            Err(e) => Err(e),
            Ok(m) => {
                let summary = required_field::<String>(m, "summary"@);
                let start = required_field::<DateVariant>(m, "start"@);
                let end = required_field::<DateVariant>(m, "end"@);
                let location = optional_field::<String>(m, "location"@);
                let description = optional_field::<String>(m, "description"@);
                let uid = optional_field::<String>(m, "uid"@);
                let recurrence_id = optional_field::<String>(m, "recurrence_id"@);
                let rrule = optional_field::<String>(m, "rrule"@);
                if summary is Err {
                    Err(summary->Err_0)
                } else if start is Err {
                    Err(start->Err_0)
                } else if end is Err {
                    Err(end->Err_0)
                } else if location is Err {
                    Err(location->Err_0)
                } else if description is Err {
                    Err(description->Err_0)
                } else if uid is Err {
                    Err(uid->Err_0)
                } else if recurrence_id is Err {
                    Err(recurrence_id->Err_0)
                } else if rrule is Err {
                    Err(rrule->Err_0)
                } else {
                    Ok(
                        CalendarEventView {
                            summary: summary->Ok_0,
                            start: start->Ok_0,
                            end: end->Ok_0,
                            location: location->Ok_0,
                            description: description->Ok_0,
                            uid: uid->Ok_0,
                            recurrence_id: recurrence_id->Ok_0,
                            rrule: rrule->Ok_0,
                        },
                    )
                }
            },
        }
    }

    fn decode(json: &Json) -> (r: Result<CalendarsEntityEntry, DecodeError>) {
        let m = object(json)?;
        let summary = required::<String>(m, "summary")?;
        let start = required::<DateVariant>(m, "start")?;
        let end = required::<DateVariant>(m, "end")?;
        let location = optional::<String>(m, "location")?;
        let description = optional::<String>(m, "description")?;
        let uid = optional::<String>(m, "uid")?;
        let recurrence_id = optional::<String>(m, "recurrence_id")?;
        let rrule = optional::<String>(m, "rrule")?;
        Ok(CalendarsEntityEntry { summary, start, end, location, description, uid, recurrence_id, rrule })
    }
}

/// The reply to `/api/events`.
pub type EventsResponse = Vec<EventEntry>;

/// The reply to `/api/services`.
pub type ServicesResponse = Vec<ServiceEntry>;

/// The reply to `/api/history/period`: one list for each entity.
pub type HistoryResponse = Vec<Vec<HistoryEntry>>;

/// The reply to `/api/logbook`.
pub type LogbookResponse = Vec<LogbookEntry>;

/// The reply to `/api/states`.
pub type StatesResponse = Vec<StateEntry>;

/// The reply to `/api/calendars`.
pub type CalendarsResponse = Vec<CalendarEntry>;

/// The reply to `/api/calendars/<entity_id>`.
pub type CalendarsEntityResponse = Vec<CalendarsEntityEntry>;

} // verus!
