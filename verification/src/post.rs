//! Requests that change something on the hub, and the records they are
//! answered with.

use std::collections::HashMap;
use vstd::prelude::*;
use crate::datetime::{Instant, Timestamp};
use crate::deserialize::{
    json_object,
    object,
    optional,
    optional_field,
    required,
    required_field,
    Attributes,
    Decode,
};
use crate::errors::{DecodeError, DecodeFailure};
use crate::get::begins_with_slash;
use crate::json::{Json, JsonValue};
use crate::state_enum::{StateEnum, StateValue};
use crate::text::concat;

verus! {

/// A write request: the path to post to, and the payload that goes with it.
pub struct Request<S> {
    pub endpoint: String,
    pub body: S,
}

/// Parameters that know which write request they stand for.
pub trait Requestable: Sized {
    /// The type of the payload.
    type S;

    /// The path that these parameters post to.
    spec fn endpoint(&self) -> Seq<char>;

    /// The payload that these parameters post.
    spec fn body(&self) -> Self::S;

    /// Turns the parameters into their request. Nothing is read or sent, and
    /// nothing is asked of the parameters. The path of the request begins
    /// with `/`.
    fn into_request(self) -> (r: Request<Self::S>)
        ensures
            r.endpoint@ == self.endpoint(),
            r.body == self.body(),
            begins_with_slash(r.endpoint@),
    ;
}

/// Turning parameters into a request is a function of the parameters alone:
/// it is defined for all of them, and doing it twice for the same parameters
/// gives the same path and the same payload twice.
pub proof fn lemma_into_request_is_a_function<P: Requestable>(
    params: P,
    first: Request<P::S>,
    second: Request<P::S>,
)
    requires
        first.endpoint@ == params.endpoint(),
        first.body == params.body(),
        second.endpoint@ == params.endpoint(),
        second.body == params.body(),
    ensures
        first.endpoint@ == second.endpoint@,
        first.body == second.body,
{
}

/// The payload of a state write.
#[derive(Debug)]
pub struct StateRequestBody {
    pub state: String,
    pub attributes: HashMap<String, String>,
}

/// The state to give an entity, with the attributes to set beside it.
pub struct StateParams {
    pub entity_id: String,
    pub state: String,
    pub attributes: HashMap<String, String>,
}

impl Requestable for StateParams {
    type S = StateRequestBody;

    /// The path is `/api/states/` followed by the entity id.
    open spec fn endpoint(&self) -> Seq<char> {
        "/api/states/"@ + self.entity_id@
    }

    /// The payload holds the state and the attributes as they were given.
    open spec fn body(&self) -> StateRequestBody {
        StateRequestBody { state: self.state, attributes: self.attributes }
    }

    fn into_request(self) -> (r: Request<StateRequestBody>) {
        proof {
            reveal_strlit("/api/states/");
        }
        let endpoint = concat("/api/states/", self.entity_id.as_str());
        let body = StateRequestBody { state: self.state, attributes: self.attributes };
        Request { endpoint, body }
    }
}

/// The event to fire, with the data to hand to its listeners, if any.
pub struct EventParams {
    pub event_type: String,
    pub event_data: Option<Json>,
}

impl Requestable for EventParams {
    type S = Option<Json>;

    /// The path is `/api/events/` followed by the event type.
    open spec fn endpoint(&self) -> Seq<char> {
        "/api/events/"@ + self.event_type@
    }

    /// The payload is the event data, absent where none was given.
    open spec fn body(&self) -> Option<Json> {
        self.event_data
    }

    fn into_request(self) -> (r: Request<Option<Json>>) {
        proof {
            reveal_strlit("/api/events/");
        }
        let endpoint = concat("/api/events/", self.event_type.as_str());
        Request { endpoint, body: self.event_data }
    }
}

/// The payload of a template render.
#[derive(Debug)]
pub struct TemplateRequestBody {
    pub template: String,
}

/// The template to render.
pub struct TemplateParams {
    pub template: String,
}

impl Requestable for TemplateParams {
    type S = TemplateRequestBody;

    /// The path is `/api/template`.
    open spec fn endpoint(&self) -> Seq<char> {
        "/api/template"@
    }

    /// The payload holds the template as it was given.
    open spec fn body(&self) -> TemplateRequestBody {
        TemplateRequestBody { template: self.template }
    }

    fn into_request(self) -> (r: Request<TemplateRequestBody>) {
        let body = TemplateRequestBody { template: self.template };
        proof {
            reveal_strlit("/api/template");
        }
        Request { endpoint: String::from_str("/api/template"), body }
    }
}

/// What caused a state to change.
#[derive(Debug, PartialEq, Eq)]
pub struct StateContextStateResponse {
    pub id: String,
    pub parent_id: Option<String>,
    pub user_id: Option<String>,
}

/// What a [`StateContextStateResponse`] holds, as plain values.
pub struct StateContextView {
    pub id: Seq<char>,
    pub parent_id: Option<Seq<char>>,
    pub user_id: Option<Seq<char>>,
}

impl DeepView for StateContextStateResponse {
    type V = StateContextView;

    open spec fn deep_view(&self) -> StateContextView {
        StateContextView {
            id: self.id.deep_view(),
            parent_id: self.parent_id.deep_view(),
            user_id: self.user_id.deep_view(),
        }
    }
}

impl Decode for StateContextStateResponse {
    /// Read from an object, member by member in the order of the fields;
    /// the first member that cannot be read makes the whole fail. Required:
    /// `id`.
    open spec fn decoding(json: JsonValue) -> Result<StateContextView, DecodeFailure> {
        match json_object(json) {
            Err(e) => Err(e),
            Ok(m) => {
                let id = required_field::<String>(m, "id"@);
                let parent_id = optional_field::<String>(m, "parent_id"@);
                let user_id = optional_field::<String>(m, "user_id"@);
                if id is Err {
                    Err(id->Err_0)
                } else if parent_id is Err {
                    Err(parent_id->Err_0)
                } else if user_id is Err {
                    Err(user_id->Err_0)
                } else {
                    Ok(
                        StateContextView {
                            id: id->Ok_0,
                            parent_id: parent_id->Ok_0,
                            user_id: user_id->Ok_0,
                        },
                    )
                }
            },
        }
    }

    fn decode(json: &Json) -> (r: Result<StateContextStateResponse, DecodeError>) {
        let m = object(json)?;
        let id = required::<String>(m, "id")?;
        let parent_id = optional::<String>(m, "parent_id")?;
        let user_id = optional::<String>(m, "user_id")?;
        Ok(StateContextStateResponse { id, parent_id, user_id })
    }
}

/// The state of an entity after a write: the reply to a post to `/api/states/<entity_id>`.
#[derive(Debug, PartialEq, Eq)]
pub struct StateResponse {
    /// The id of the entity.
    pub entity_id: String,
    /// The state of the entity.
    pub state: Option<StateEnum>,
    /// What else is known of the entity and its state.
    pub attributes: Attributes,
    /// When the state last changed.
    pub last_changed: Option<Timestamp>,
    /// When the state was last reported.
    pub last_reported: Option<Timestamp>,
    /// When the state or an attribute last changed.
    pub last_updated: Option<Timestamp>,
    pub context: StateContextStateResponse,
}

/// What a [`StateResponse`] holds, as plain values.
pub struct StateResponseView {
    pub entity_id: Seq<char>,
    pub state: Option<StateValue>,
    pub attributes: Seq<(Seq<char>, JsonValue)>,
    pub last_changed: Option<Instant>,
    pub last_reported: Option<Instant>,
    pub last_updated: Option<Instant>,
    pub context: StateContextView,
}

impl DeepView for StateResponse {
    type V = StateResponseView;

    open spec fn deep_view(&self) -> StateResponseView {
        StateResponseView {
            entity_id: self.entity_id.deep_view(),
            state: self.state.deep_view(),
            attributes: self.attributes.deep_view(),
            last_changed: self.last_changed.deep_view(),
            last_reported: self.last_reported.deep_view(),
            last_updated: self.last_updated.deep_view(),
            context: self.context.deep_view(),
        }
    }
}

impl Decode for StateResponse {
    /// Read from an object, member by member in the order of the fields;
    /// the first member that cannot be read makes the whole fail. Required:
    /// `entity_id`, `attributes`, `context`.
    open spec fn decoding(json: JsonValue) -> Result<StateResponseView, DecodeFailure> {
        match json_object(json) {
            Err(e) => Err(e),
            Ok(m) => {
                let entity_id = required_field::<String>(m, "entity_id"@);
                let state = optional_field::<StateEnum>(m, "state"@);
                let attributes = required_field::<Attributes>(m, "attributes"@);
                let last_changed = optional_field::<Timestamp>(m, "last_changed"@);
                let last_reported = optional_field::<Timestamp>(m, "last_reported"@);
                let last_updated = optional_field::<Timestamp>(m, "last_updated"@);
                let context = required_field::<StateContextStateResponse>(m, "context"@);
                if entity_id is Err {
                    Err(entity_id->Err_0)
                } else if state is Err {
                    Err(state->Err_0)
                } else if attributes is Err {
                    Err(attributes->Err_0)
                } else if last_changed is Err {
                    Err(last_changed->Err_0)
                } else if last_reported is Err {
                    Err(last_reported->Err_0)
                } else if last_updated is Err {
                    Err(last_updated->Err_0)
                } else if context is Err {
                    Err(context->Err_0)
                } else {
                    Ok(
                        StateResponseView {
                            entity_id: entity_id->Ok_0,
                            state: state->Ok_0,
                            attributes: attributes->Ok_0,
                            last_changed: last_changed->Ok_0,
                            last_reported: last_reported->Ok_0,
                            last_updated: last_updated->Ok_0,
                            context: context->Ok_0,
                        },
                    )
                }
            },
        }
    }

    fn decode(json: &Json) -> (r: Result<StateResponse, DecodeError>) {
        let m = object(json)?;
        let entity_id = required::<String>(m, "entity_id")?;
        let state = optional::<StateEnum>(m, "state")?;
        let attributes = required::<Attributes>(m, "attributes")?;
        let last_changed = optional::<Timestamp>(m, "last_changed")?;
        let last_reported = optional::<Timestamp>(m, "last_reported")?;
        let last_updated = optional::<Timestamp>(m, "last_updated")?;
        let context = required::<StateContextStateResponse>(m, "context")?;
        Ok(StateResponse { entity_id, state, attributes, last_changed, last_reported, last_updated, context })
    }
}

/// The hub's word on an event that was fired.
#[derive(Debug, PartialEq, Eq)]
pub struct EventResponse {
    pub message: String,
}

/// What a [`EventResponse`] holds, as plain values.
pub struct EventResponseView {
    pub message: Seq<char>,
}

impl DeepView for EventResponse {
    type V = EventResponseView;

    open spec fn deep_view(&self) -> EventResponseView {
        EventResponseView {
            message: self.message.deep_view(),
        }
    }
}

impl Decode for EventResponse {
    /// Read from an object, member by member in the order of the fields;
    /// the first member that cannot be read makes the whole fail. Every
    /// member is required.
    open spec fn decoding(json: JsonValue) -> Result<EventResponseView, DecodeFailure> {
        match json_object(json) {
            Err(e) => Err(e),
            Ok(m) => {
                let message = required_field::<String>(m, "message"@);
                if message is Err {
                    Err(message->Err_0)
                } else {
                    Ok(
                        EventResponseView {
                            message: message->Ok_0,
                        },
                    )
                }
            },
        }
    }

    fn decode(json: &Json) -> (r: Result<EventResponse, DecodeError>) {
        let m = object(json)?;
        let message = required::<String>(m, "message")?;
        Ok(EventResponse { message })
    }
}

/// The outcome of a configuration check.
#[derive(Debug, PartialEq, Eq)]
pub struct CheckConfigResponse {
    pub errors: Option<String>,
    pub result: String,
}

/// What a [`CheckConfigResponse`] holds, as plain values.
pub struct CheckConfigView {
    pub errors: Option<Seq<char>>,
    pub result: Seq<char>,
}

impl DeepView for CheckConfigResponse {
    type V = CheckConfigView;

    open spec fn deep_view(&self) -> CheckConfigView {
        CheckConfigView {
            errors: self.errors.deep_view(),
            result: self.result.deep_view(),
        }
    }
}

impl Decode for CheckConfigResponse {
    /// Read from an object, member by member in the order of the fields;
    /// the first member that cannot be read makes the whole fail. Required:
    /// `result`.
    open spec fn decoding(json: JsonValue) -> Result<CheckConfigView, DecodeFailure> {
        match json_object(json) {
            Err(e) => Err(e),
            Ok(m) => {
                let errors = optional_field::<String>(m, "errors"@);
                let result = required_field::<String>(m, "result"@);
                if errors is Err {
                    Err(errors->Err_0)
                } else if result is Err {
                    Err(result->Err_0)
                } else {
                    Ok(
                        CheckConfigView {
                            errors: errors->Ok_0,
                            result: result->Ok_0,
                        },
                    )
                }
            },
        }
    }

    fn decode(json: &Json) -> (r: Result<CheckConfigResponse, DecodeError>) {
        let m = object(json)?;
        let errors = optional::<String>(m, "errors")?;
        let result = required::<String>(m, "result")?;
        Ok(CheckConfigResponse { errors, result })
    }
}

} // verus!
