//! The message envelope: incoming commands, outgoing results, errors and
//! events, and the fixed protocol errors.

use vstd::prelude::*;
use crate::error_kind::{code_kind, kind_code, kind_is_canonical, CdpErrorKind};
use crate::json::{
    clone_json, clone_members, find_member, json_view, lemma_lookup_agrees, lookup_index, members_view,
    opt_json_view, view_lookup, view_lookup_from, JsonValue, JsonView,
};
use crate::text::owned;
use crate::json::{append_json, view_text};

verus! {

pub const INVALID_MESSAGE_TEXT: &'static str = "Message must be a valid JSON";

pub const MUST_BE_OBJECT_TEXT: &'static str = "Message must be an object";

pub const MUST_HAVE_ID_TEXT: &'static str = "Message must have integer 'id' porperty";

pub const MUST_HAVE_METHOD_TEXT: &'static str = "Message must have string 'method' porperty";

pub const INVALID_PARAMS_TEXT: &'static str = "Invalid parameters";

pub const INTERNAL_ERROR_TEXT: &'static str = "Internal error";

pub const ID_KEY: &'static str = "id";

pub const METHOD_KEY: &'static str = "method";

pub const PARAMS_KEY: &'static str = "params";

pub const RESULT_KEY: &'static str = "result";

pub const ERROR_KEY: &'static str = "error";

pub const CODE_KEY: &'static str = "code";

pub const MESSAGE_KEY: &'static str = "message";

pub const DATA_KEY: &'static str = "data";

/// A protocol error: its kind, a message, and optional data.
#[derive(Debug, PartialEq)]
pub struct CdpError {
    pub kind: CdpErrorKind,
    pub message: String,
    pub data: Option<JsonValue>,
}

/// Aliases of the same error.
pub type JsonCdpError = CdpError;

pub type DevToolsError = CdpError;

/// An error as plain values.
pub struct ErrorView {
    pub code: i32,
    pub message: Seq<char>,
    pub data: Option<JsonView>,
}

impl CdpError {
    pub open spec fn view_of(self) -> ErrorView {
        ErrorView { code: kind_code(self.kind), message: self.message@, data: opt_json_view(self.data) }
    }
}

/// The error kind and message of a fixed protocol error, without data.
pub open spec fn is_fixed_error(e: CdpError, kind: CdpErrorKind, text: Seq<char>) -> bool {
    e.kind == kind && e.message@ == text && e.data is None
}

impl CdpError {
    /// The payload is not valid JSON.
    pub fn invalid_message() -> (r: CdpError)
        ensures
            is_fixed_error(r, CdpErrorKind::ParseError, INVALID_MESSAGE_TEXT@),
    {
        CdpError { kind: CdpErrorKind::ParseError, message: owned(INVALID_MESSAGE_TEXT), data: None }
    }

    /// An alias of the constructor above.
    pub fn invalid_json() -> (r: CdpError)
        ensures
            is_fixed_error(r, CdpErrorKind::ParseError, INVALID_MESSAGE_TEXT@),
    {
        CdpError::invalid_message()
    }

    /// The payload is JSON but not an object.
    pub fn must_be_object() -> (r: CdpError)
        ensures
            is_fixed_error(r, CdpErrorKind::InvalidRequest, MUST_BE_OBJECT_TEXT@),
    {
        CdpError { kind: CdpErrorKind::InvalidRequest, message: owned(MUST_BE_OBJECT_TEXT), data: None }
    }

    /// The message has no integer id.
    pub fn must_have_id() -> (r: CdpError)
        ensures
            is_fixed_error(r, CdpErrorKind::InvalidRequest, MUST_HAVE_ID_TEXT@),
    {
        CdpError { kind: CdpErrorKind::InvalidRequest, message: owned(MUST_HAVE_ID_TEXT), data: None }
    }

    /// The message has no string method.
    pub fn must_have_method() -> (r: CdpError)
        ensures
            is_fixed_error(r, CdpErrorKind::InvalidRequest, MUST_HAVE_METHOD_TEXT@),
    {
        CdpError { kind: CdpErrorKind::InvalidRequest, message: owned(MUST_HAVE_METHOD_TEXT), data: None }
    }

    /// No variant accepts the method: `'{method}' wasn't found`.
    pub fn method_not_found(method: &str) -> (r: CdpError)
        ensures
            is_fixed_error(r, CdpErrorKind::MethodNotFound, "'"@ + method@ + "' wasn't found"@),
    {
        let mut m = owned("'");
        m.append(method);
        m.append("' wasn't found");
        CdpError { kind: CdpErrorKind::MethodNotFound, message: m, data: None }
    }

    /// The selected variant could not read the parameters; `message` says
    /// why and goes in the data.
    pub fn invalid_params(message: String) -> (r: CdpError)
        ensures
            r.kind == CdpErrorKind::InvalidParams,
            r.message@ == INVALID_PARAMS_TEXT@,
            r.data == Some(JsonValue::Str(message)),
    {
        CdpError { kind: CdpErrorKind::InvalidParams, message: owned(INVALID_PARAMS_TEXT), data: Some(JsonValue::Str(message)) }
    }

    /// An alias of the constructor above.
    pub fn invalid_parameters(message: String) -> (r: CdpError)
        ensures
            r.kind == CdpErrorKind::InvalidParams,
            r.message@ == INVALID_PARAMS_TEXT@,
            r.data == Some(JsonValue::Str(message)),
    {
        CdpError::invalid_params(message)
    }

    /// A server-side failure, with its own message.
    pub fn server_error(message: String) -> (r: CdpError)
        ensures
            r.kind == CdpErrorKind::ServerError,
            r.message == message,
            r.data is None,
    {
        CdpError { kind: CdpErrorKind::ServerError, message, data: None }
    }

    /// An internal failure; `message` says what and goes in the data.
    pub fn internal_error(message: String) -> (r: CdpError)
        ensures
            r.kind == CdpErrorKind::InternalError,
            r.message@ == INTERNAL_ERROR_TEXT@,
            r.data == Some(JsonValue::Str(message)),
    {
        CdpError { kind: CdpErrorKind::InternalError, message: owned(INTERNAL_ERROR_TEXT), data: Some(JsonValue::Str(message)) }
    }
}

/// The JSON form of an integer code.
pub open spec fn code_json(code: i32) -> JsonView {
    if code < 0 {
        JsonView::NegInt(code as i64)
    } else {
        JsonView::UInt(code as u64)
    }
}

/// The JSON object of an error: its code, its message, and its data where
/// there is some.
pub open spec fn error_json(e: ErrorView) -> JsonView {
    let base = seq![(CODE_KEY@, code_json(e.code)), (MESSAGE_KEY@, JsonView::Str(e.message))];
    JsonView::Object(
        match e.data {
            Some(d) => base.push((DATA_KEY@, d)),
            None => base,
        },
    )
}

/// The integer code that a JSON value holds, where it fits in 32 bits.
pub open spec fn json_code(v: JsonView) -> Option<i32> {
    match v {
        JsonView::UInt(n) => if n <= i32::MAX {
            Some(n as i32)
        } else {
            None
        },
        JsonView::NegInt(n) => if i32::MIN <= n && n <= i32::MAX {
            Some(n as i32)
        } else {
            None
        },
        _ => None,
    }
}

/// The error that a JSON value decodes to: an object with an integer
/// `code` and a string `message`; a `data` member that is absent or null
/// gives no data. Other members are ignored.
pub open spec fn error_from_json(v: JsonView) -> Option<ErrorView> {
    match v {
        JsonView::Object(ms) => match (view_lookup(ms, CODE_KEY@), view_lookup(ms, MESSAGE_KEY@)) {
            (Some(c), Some(JsonView::Str(m))) => match json_code(c) {
                Some(code) => Some(
                    ErrorView {
                        code,
                        message: m,
                        data: match view_lookup(ms, DATA_KEY@) {
                            Some(JsonView::Null) | None => None,
                            Some(d) => Some(d),
                        },
                    },
                ),
                None => None,
            },
            _ => None,
        },
        _ => None,
    }
}

/// Encoding an error and decoding the result gives the error back, for
/// every code and message, where the data is not a bare null.
pub proof fn lemma_error_json_round_trip(e: ErrorView)
    requires
        e.data != Some(JsonView::Null),
    ensures
        error_from_json(error_json(e)) == Some(e),
{
    reveal_strlit("code");
    reveal_strlit("message");
    reveal_strlit("data");
    assert(CODE_KEY@.len() == 4 && CODE_KEY@[0] == 'c');
    assert(MESSAGE_KEY@.len() == 7);
    assert(DATA_KEY@.len() == 4 && DATA_KEY@[0] == 'd');
    let base = seq![(CODE_KEY@, code_json(e.code)), (MESSAGE_KEY@, JsonView::Str(e.message))];
    let ms = match e.data {
        Some(d) => base.push((DATA_KEY@, d)),
        None => base,
    };
    assert(error_json(e) == JsonView::Object(ms));
    assert(ms[0].0 == CODE_KEY@);
    assert(ms[1].0 == MESSAGE_KEY@);
    assert(ms[1].0 != CODE_KEY@);
    assert(ms[0].0 != MESSAGE_KEY@);
    assert(ms[0].0 != DATA_KEY@);
    assert(ms[1].0 != DATA_KEY@);
    assert(view_lookup(ms, CODE_KEY@) == Some(code_json(e.code)));
    assert(view_lookup_from(ms, MESSAGE_KEY@, 1) == Some(JsonView::Str(e.message)));
    assert(view_lookup(ms, MESSAGE_KEY@) == Some(JsonView::Str(e.message)));
    if e.data is Some {
        assert(ms[2].0 == DATA_KEY@);
        assert(view_lookup_from(ms, DATA_KEY@, 2) == e.data);
        assert(view_lookup_from(ms, DATA_KEY@, 1) == e.data);
    } else {
        assert(view_lookup_from(ms, DATA_KEY@, 2) is None);
        assert(view_lookup_from(ms, DATA_KEY@, 1) is None);
    }
}

/// A number member for a code.
fn code_value(code: i32) -> (r: JsonValue)
    ensures
        json_view(r) == code_json(code),
{
    if code < 0 {
        JsonValue::NegInt(code as i64)
    } else {
        JsonValue::UInt(code as u64)
    }
}

impl CdpError {
    /// The JSON object of this error.
    pub fn to_json(&self) -> (r: JsonValue)
        ensures
            json_view(r) == error_json(self.view_of()),
    {
        let mut ms: Vec<(String, JsonValue)> = Vec::new();
        ms.push((owned(CODE_KEY), code_value(self.kind.code())));
        ms.push((owned(MESSAGE_KEY), JsonValue::Str(self.message.clone())));
        match &self.data {
            Some(d) => {
                let c = clone_json(d);
                assert(json_view(c) == json_view(*d));
                ms.push((owned(DATA_KEY), c));
            },
            None => {},
        }
        proof {
            crate::json::lemma_members_view(ms, ms@.len());
        }
        assert(ms@[0].0@ == CODE_KEY@);
        assert(ms@[1].0@ == MESSAGE_KEY@);
        assert(json_view(ms@[0].1) == code_json(kind_code(self.kind)));
        assert(json_view(ms@[1].1) == JsonView::Str(self.message@));
        let ghost mv = members_view(ms, ms@.len());
        let r = JsonValue::Object(ms);
        assert(json_view(r) == JsonView::Object(mv));
        assert(json_view(r) == error_json(self.view_of())) by {
            let e = self.view_of();
            let base = seq![(CODE_KEY@, code_json(e.code)), (MESSAGE_KEY@, JsonView::Str(e.message))];
            match e.data {
                Some(d) => {
                    assert(ms@.len() == 3);
                    assert(ms@[2].0@ == DATA_KEY@);
                    assert(mv[2] == (DATA_KEY@, d));
                    assert(mv =~= base.push((DATA_KEY@, d)));
                },
                None => {
                    assert(ms@.len() == 2);
                    assert(mv =~= base);
                },
            }
        }
        r
    }
}

/// The member of `members` under `key`, with its view.
fn member<'a>(members: &'a Vec<(String, JsonValue)>, key: &str) -> (r: Option<&'a JsonValue>)
    ensures
        match r {
            Some(v) => view_lookup(members_view(*members, members@.len()), key@) == Some(json_view(*v)),
            None => view_lookup(members_view(*members, members@.len()), key@) is None,
        },
{
    proof {
        lemma_lookup_agrees(*members, key@, 0);
    }
    match find_member(members, key) {
        Some(i) => Some(&members[i].1),
        None => None,
    }
}

/// The code that a JSON value holds, where it fits in 32 bits.
fn code_of(v: &JsonValue) -> (r: Option<i32>)
    ensures
        r == json_code(json_view(*v)),
{
    match v {
        JsonValue::UInt(n) => if *n <= 0x7fff_ffffu64 {
            Some(*n as i32)
        } else {
            None
        },
        JsonValue::NegInt(n) => if -0x8000_0000i64 <= *n && *n <= 0x7fff_ffffi64 {
            Some(*n as i32)
        } else {
            None
        },
        _ => None,
    }
}

impl CdpError {
    /// Decodes an error from its JSON object.
    pub fn from_json(v: &JsonValue) -> (r: Option<CdpError>)
        ensures
            match r {
                Some(e) => error_from_json(json_view(*v)) == Some(e.view_of()) && kind_is_canonical(e.kind),
                None => error_from_json(json_view(*v)) is None,
            },
    {
        let members = match v {
            JsonValue::Object(ms) => ms,
            _ => {
                return None;
            },
        };
        let code = match member(members, CODE_KEY) {
            Some(c) => c,
            None => {
                return None;
            },
        };
        let message = match member(members, MESSAGE_KEY) {
            Some(JsonValue::Str(m)) => m,
            _ => {
                return None;
            },
        };
        let code = match code_of(code) {
            Some(c) => c,
            None => {
                return None;
            },
        };
        let data = match member(members, DATA_KEY) {
            None => None,
            Some(JsonValue::Null) => None,
            Some(d) => Some(clone_json(d)),
        };
        proof {
            crate::error_kind::lemma_code_round_trip(code);
        }
        Some(CdpError { kind: CdpErrorKind::from_code(code), message: message.clone(), data })
    }
}

/// An incoming command: its id, its method name, and its parameters.
#[derive(Debug, PartialEq)]
pub struct CdpIncoming {
    pub id: u64,
    pub command_name: String,
    pub command_params: Vec<(String, JsonValue)>,
}

/// Aliases of the same message.
pub type JsonCdpIncoming = CdpIncoming;

pub type ClientMessage = CdpIncoming;

pub type OwnedClientMessage = CdpIncoming;

/// How an incoming payload is read, step by step.
pub enum IncomingOutcome {
    Command { id: u64, method: Seq<char>, params: Seq<(Seq<char>, JsonView)> },
    /// The payload is not JSON.
    InvalidJson,
    /// The payload is not an object.
    NotObject,
    /// There is no non-negative integer `id`.
    NoId,
    /// There is no string `method`; the id is known.
    NoMethod { id: u64 },
}

/// The outcome for a payload, given what decoding it as JSON gave: a
/// non-object `params`, or none, counts as an empty object.
pub open spec fn incoming_outcome(decoded: Option<JsonView>) -> IncomingOutcome {
    match decoded {
        None => IncomingOutcome::InvalidJson,
        Some(JsonView::Object(ms)) => match view_lookup(ms, ID_KEY@) {
            Some(JsonView::UInt(id)) => match view_lookup(ms, METHOD_KEY@) {
                Some(JsonView::Str(m)) => IncomingOutcome::Command {
                    id,
                    method: m,
                    params: match view_lookup(ms, PARAMS_KEY@) {
                        Some(JsonView::Object(p)) => p,
                        _ => Seq::empty(),
                    },
                },
                _ => IncomingOutcome::NoMethod { id },
            },
            _ => IncomingOutcome::NoId,
        },
        Some(_) => IncomingOutcome::NotObject,
    }
}

/// The result of parsing agrees with the outcome: the command on success,
/// else the fixed error of the step that failed, with the id where it is
/// known.
pub open spec fn parse_agrees(r: Result<CdpIncoming, (CdpError, Option<u64>)>, o: IncomingOutcome) -> bool {
    match o {
        IncomingOutcome::Command { id, method, params } => match r {
            Ok(c) => c.id == id && c.command_name@ == method && members_view(c.command_params, c.command_params@.len())
                == params,
            Err(_) => false,
        },
        IncomingOutcome::InvalidJson => match r {
            Err((e, None)) => is_fixed_error(e, CdpErrorKind::ParseError, INVALID_MESSAGE_TEXT@),
            _ => false,
        },
        IncomingOutcome::NotObject => match r {
            Err((e, None)) => is_fixed_error(e, CdpErrorKind::InvalidRequest, MUST_BE_OBJECT_TEXT@),
            _ => false,
        },
        IncomingOutcome::NoId => match r {
            Err((e, None)) => is_fixed_error(e, CdpErrorKind::InvalidRequest, MUST_HAVE_ID_TEXT@),
            _ => false,
        },
        IncomingOutcome::NoMethod { id } => match r {
            Err((e, Some(i))) => i == id && is_fixed_error(e, CdpErrorKind::InvalidRequest, MUST_HAVE_METHOD_TEXT@),
            _ => false,
        },
    }
}

impl CdpIncoming {
    /// Reads an incoming command from what decoding its payload as JSON
    /// gave (`None` where the payload is not JSON).
    pub fn parse(decoded: &Option<JsonValue>) -> (r: Result<CdpIncoming, (CdpError, Option<u64>)>)
        ensures
            parse_agrees(r, incoming_outcome(opt_json_view(*decoded))),
    {
        let value = match decoded {
            None => {
                return Err((CdpError::invalid_message(), None));
            },
            Some(v) => v,
        };
        let members = match value {
            JsonValue::Object(ms) => ms,
            _ => {
                return Err((CdpError::must_be_object(), None));
            },
        };
        let id = match member(members, ID_KEY) {
            Some(JsonValue::UInt(n)) => *n,
            _ => {
                return Err((CdpError::must_have_id(), None));
            },
        };
        let method = match member(members, METHOD_KEY) {
            Some(JsonValue::Str(m)) => m.clone(),
            _ => {
                return Err((CdpError::must_have_method(), Some(id)));
            },
        };
        let params = match member(members, PARAMS_KEY) {
            Some(JsonValue::Object(p)) => clone_members(p),
            _ => Vec::new(),
        };
        assert(members_view(params, params@.len()) =~= match view_lookup(
            members_view(*members, members@.len()),
            PARAMS_KEY@,
        ) {
            Some(JsonView::Object(p)) => p,
            _ => Seq::empty(),
        });
        Ok(CdpIncoming { id, command_name: method, command_params: params })
    }

    /// The JSON object of a command sent by a client: its id, method and
    /// parameters.
    pub fn serialize_command(id: u64, command_name: &str, params: &Vec<(String, JsonValue)>) -> (r: JsonValue)
        ensures
            json_view(r) == JsonView::Object(
                seq![
                    (ID_KEY@, JsonView::UInt(id)),
                    (METHOD_KEY@, JsonView::Str(command_name@)),
                    (PARAMS_KEY@, JsonView::Object(members_view(*params, params@.len()))),
                ],
            ),
    {
        let mut ms: Vec<(String, JsonValue)> = Vec::new();
        ms.push((owned(ID_KEY), JsonValue::UInt(id)));
        ms.push((owned(METHOD_KEY), JsonValue::Str(owned(command_name))));
        ms.push((owned(PARAMS_KEY), JsonValue::Object(clone_members(params))));
        proof {
            crate::json::lemma_members_view(ms, ms@.len());
        }
        let ghost mv = members_view(ms, ms@.len());
        assert(mv =~= seq![
            (ID_KEY@, JsonView::UInt(id)),
            (METHOD_KEY@, JsonView::Str(command_name@)),
            (PARAMS_KEY@, JsonView::Object(members_view(*params, params@.len()))),
        ]);
        JsonValue::Object(ms)
    }
}

/// A message from the server to the client.
#[derive(Debug, PartialEq)]
pub enum CdpOutgoing {
    /// The outcome of the command with this id.
    Result { id: u64, result: Result<Vec<(String, JsonValue)>, CdpError> },
    /// An event pushed to the client.
    Event { name: String, params: Vec<(String, JsonValue)> },
    /// A failure before any id was known.
    Error(CdpError),
}

/// An alias of the same message.
pub type JsonCdpOutgoing = CdpOutgoing;

pub open spec fn response_json(id: u64, response: JsonView) -> JsonView {
    JsonView::Object(seq![(ID_KEY@, JsonView::UInt(id)), (RESULT_KEY@, response)])
}

pub open spec fn error_message_json(maybe_id: Option<u64>, error: ErrorView) -> JsonView {
    JsonView::Object(
        match maybe_id {
            Some(id) => seq![(ID_KEY@, JsonView::UInt(id)), (ERROR_KEY@, error_json(error))],
            None => seq![(ERROR_KEY@, error_json(error))],
        },
    )
}

pub open spec fn event_json(name: Seq<char>, params: Seq<(Seq<char>, JsonView)>) -> JsonView {
    JsonView::Object(seq![(METHOD_KEY@, JsonView::Str(name)), (PARAMS_KEY@, JsonView::Object(params))])
}

pub open spec fn outgoing_json(m: CdpOutgoing) -> JsonView {
    match m {
        CdpOutgoing::Result { id, result } => match result {
            Ok(r) => response_json(id, JsonView::Object(members_view(r, r@.len()))),
            Err(e) => error_message_json(Some(id), e.view_of()),
        },
        CdpOutgoing::Event { name, params } => event_json(name@, members_view(params, params@.len())),
        CdpOutgoing::Error(e) => error_message_json(None, e.view_of()),
    }
}

/// An object of one or two members, from owned parts.
fn object2(k1: &str, v1: JsonValue, k2: &str, v2: JsonValue) -> (r: JsonValue)
    ensures
        json_view(r) == JsonView::Object(seq![(k1@, json_view(v1)), (k2@, json_view(v2))]),
{
    let mut ms: Vec<(String, JsonValue)> = Vec::new();
    ms.push((owned(k1), v1));
    ms.push((owned(k2), v2));
    proof {
        crate::json::lemma_members_view(ms, ms@.len());
    }
    let ghost mv = members_view(ms, ms@.len());
    assert(mv =~= seq![(k1@, json_view(v1)), (k2@, json_view(v2))]);
    JsonValue::Object(ms)
}

fn object1(k1: &str, v1: JsonValue) -> (r: JsonValue)
    ensures
        json_view(r) == JsonView::Object(seq![(k1@, json_view(v1))]),
{
    let mut ms: Vec<(String, JsonValue)> = Vec::new();
    ms.push((owned(k1), v1));
    proof {
        crate::json::lemma_members_view(ms, ms@.len());
    }
    let ghost mv = members_view(ms, ms@.len());
    assert(mv =~= seq![(k1@, json_view(v1))]);
    JsonValue::Object(ms)
}

impl CdpOutgoing {
    /// `{"id": id, "result": response}`
    pub fn serialize_response(id: u64, response: &JsonValue) -> (r: JsonValue)
        ensures
            json_view(r) == response_json(id, json_view(*response)),
    {
        object2(ID_KEY, JsonValue::UInt(id), RESULT_KEY, clone_json(response))
    }

    /// `{"id": id, "error": error}`, or `{"error": error}` where no id is
    /// known.
    pub fn serialize_error(maybe_id: Option<u64>, error: &CdpError) -> (r: JsonValue)
        ensures
            json_view(r) == error_message_json(maybe_id, error.view_of()),
    {
        match maybe_id {
            Some(id) => object2(ID_KEY, JsonValue::UInt(id), ERROR_KEY, error.to_json()),
            None => object1(ERROR_KEY, error.to_json()),
        }
    }

    /// The response to a command, or its failure.
    pub fn serialize_result(id: u64, result: Result<&JsonValue, &CdpError>) -> (r: JsonValue)
        ensures
            json_view(r) == match result {
                Ok(v) => response_json(id, json_view(*v)),
                Err(e) => error_message_json(Some(id), e.view_of()),
            },
    {
        match result {
            Ok(v) => CdpOutgoing::serialize_response(id, v),
            Err(e) => CdpOutgoing::serialize_error(Some(id), e),
        }
    }

    /// `{"method": name, "params": params}`
    pub fn serialize_event(name: &str, params: &Vec<(String, JsonValue)>) -> (r: JsonValue)
        ensures
            json_view(r) == event_json(name@, members_view(*params, params@.len())),
    {
        object2(METHOD_KEY, JsonValue::Str(owned(name)), PARAMS_KEY, JsonValue::Object(clone_members(params)))
    }

    /// The JSON object of this message.
    pub fn to_json(&self) -> (r: JsonValue)
        ensures
            json_view(r) == outgoing_json(*self),
    {
        match self {
            CdpOutgoing::Result { id, result } => match result {
                Ok(r) => {
                    let v = JsonValue::Object(clone_members(r));
                    CdpOutgoing::serialize_response(*id, &v)
                },
                Err(e) => CdpOutgoing::serialize_error(Some(*id), e),
            },
            CdpOutgoing::Event { name, params } => CdpOutgoing::serialize_event(name.as_str(), params),
            CdpOutgoing::Error(e) => CdpOutgoing::serialize_error(None, e),
        }
    }

    /// Appends the text of a response.
    pub fn serialize_response_to_string(string: &mut String, id: u64, response: &JsonValue)
        ensures
            final(string)@ == old(string)@ + view_text(response_json(id, json_view(*response))),
    {
        let v = CdpOutgoing::serialize_response(id, response);
        append_json(&v, string);
    }

    /// Appends the text of an error message.
    pub fn serialize_error_to_string(string: &mut String, maybe_id: Option<u64>, error: &CdpError)
        ensures
            final(string)@ == old(string)@ + view_text(error_message_json(maybe_id, error.view_of())),
    {
        let v = CdpOutgoing::serialize_error(maybe_id, error);
        append_json(&v, string);
    }

    /// Appends the text of an event.
    pub fn serialize_event_to_string(string: &mut String, name: &str, params: &Vec<(String, JsonValue)>)
        ensures
            final(string)@ == old(string)@ + view_text(event_json(name@, members_view(*params, params@.len()))),
    {
        let v = CdpOutgoing::serialize_event(name, params);
        append_json(&v, string);
    }

    /// Appends the text of the response to a command, or of its failure.
    pub fn serialize_result_to_string(string: &mut String, id: u64, result: Result<&JsonValue, &CdpError>)
        ensures
            final(string)@ == old(string)@ + view_text(
                match result {
                    Ok(v) => response_json(id, json_view(*v)),
                    Err(e) => error_message_json(Some(id), e.view_of()),
                },
            ),
    {
        let v = CdpOutgoing::serialize_result(id, result);
        append_json(&v, string);
    }
}

impl CdpIncoming {
    /// Appends the text of a command sent by a client.
    pub fn serialize_command_to_string(string: &mut String, id: u64, command_name: &str, params: &Vec<(String, JsonValue)>)
        ensures
            final(string)@ == old(string)@ + view_text(
                JsonView::Object(
                    seq![
                        (ID_KEY@, JsonView::UInt(id)),
                        (METHOD_KEY@, JsonView::Str(command_name@)),
                        (PARAMS_KEY@, JsonView::Object(members_view(*params, params@.len()))),
                    ],
                ),
            ),
    {
        let v = CdpIncoming::serialize_command(id, command_name, params);
        append_json(&v, string);
    }
}

/// How a server message decodes: the first of these shapes that fits, in
/// this order, with other members ignored.
pub enum OutgoingView {
    Success { id: u64, result: Seq<(Seq<char>, JsonView)> },
    Failure { id: u64, error: ErrorView },
    GeneralFailure { error: ErrorView },
    Event { method: Seq<char>, params: Seq<(Seq<char>, JsonView)> },
}

pub open spec fn outgoing_from_json(v: JsonView) -> Option<OutgoingView> {
    match v {
        JsonView::Object(ms) => {
            let id = view_lookup(ms, ID_KEY@);
            let result = view_lookup(ms, RESULT_KEY@);
            let error = view_lookup(ms, ERROR_KEY@);
            let method = view_lookup(ms, METHOD_KEY@);
            let params = view_lookup(ms, PARAMS_KEY@);
            if id matches Some(JsonView::UInt(_)) && result matches Some(JsonView::Object(_)) {
                Some(OutgoingView::Success { id: id.unwrap()->UInt_0, result: result.unwrap()->Object_0 })
            } else if id matches Some(JsonView::UInt(_)) && error is Some && error_from_json(error.unwrap()) is Some {
                Some(OutgoingView::Failure { id: id.unwrap()->UInt_0, error: error_from_json(error.unwrap()).unwrap() })
            } else if error is Some && error_from_json(error.unwrap()) is Some {
                Some(OutgoingView::GeneralFailure { error: error_from_json(error.unwrap()).unwrap() })
            } else if method matches Some(JsonView::Str(_)) && params matches Some(JsonView::Object(_)) {
                Some(OutgoingView::Event { method: method.unwrap()->Str_0, params: params.unwrap()->Object_0 })
            } else {
                None
            }
        },
        _ => None,
    }
}

pub open spec fn outgoing_view(m: CdpOutgoing) -> OutgoingView {
    match m {
        CdpOutgoing::Result { id, result } => match result {
            Ok(r) => OutgoingView::Success { id, result: members_view(r, r@.len()) },
            Err(e) => OutgoingView::Failure { id, error: e.view_of() },
        },
        CdpOutgoing::Event { name, params } => OutgoingView::Event { method: name@, params: members_view(params, params@.len()) },
        CdpOutgoing::Error(e) => OutgoingView::GeneralFailure { error: e.view_of() },
    }
}

impl CdpOutgoing {
    /// Decodes a server message from its JSON object.
    pub fn from_json(v: &JsonValue) -> (r: Option<CdpOutgoing>)
        ensures
            match r {
                Some(m) => outgoing_from_json(json_view(*v)) == Some(outgoing_view(m)),
                None => outgoing_from_json(json_view(*v)) is None,
            },
    {
        let members = match v {
            JsonValue::Object(ms) => ms,
            _ => {
                return None;
            },
        };
        let id = member(members, ID_KEY);
        let result = member(members, RESULT_KEY);
        let error = member(members, ERROR_KEY);
        if let Some(JsonValue::UInt(n)) = id {
            if let Some(JsonValue::Object(r)) = result {
                let rs = clone_members(r);
                return Some(CdpOutgoing::Result { id: *n, result: Ok(rs) });
            }
            if let Some(e) = error {
                if let Some(err) = CdpError::from_json(e) {
                    return Some(CdpOutgoing::Result { id: *n, result: Err(err) });
                }
            }
        }
        if let Some(e) = error {
            if let Some(err) = CdpError::from_json(e) {
                return Some(CdpOutgoing::Error(err));
            }
        }
        let method = member(members, METHOD_KEY);
        let params = member(members, PARAMS_KEY);
        if let Some(JsonValue::Str(m)) = method {
            if let Some(JsonValue::Object(p)) = params {
                return Some(CdpOutgoing::Event { name: m.clone(), params: clone_members(p) });
            }
        }
        None
    }
}

/// The parameters can be read as the empty-parameter object: any object,
/// whatever members it holds, or an empty array.
pub open spec fn reads_as_empty(params: JsonView) -> bool {
    match params {
        JsonView::Object(_) => true,
        JsonView::Array(items) => items.len() == 0,
        _ => false,
    }
}

/// Whether the parameters of a variant without fields are acceptable.
pub fn read_empty_params(params: &JsonValue) -> (r: bool)
    ensures
        r == reads_as_empty(json_view(*params)),
{
    match params {
        JsonValue::Object(_) => true,
        JsonValue::Array(items) => {
            proof {
                crate::json::lemma_items_view(*items, items@.len());
            }
            items.len() == 0
        },
        _ => false,
    }
}

/// The empty-parameter object, `{}`.
pub fn empty_params() -> (r: JsonValue)
    ensures
        json_view(r) == JsonView::Object(Seq::empty()),
{
    let ms: Vec<(String, JsonValue)> = Vec::new();
    assert(members_view(ms, 0) =~= Seq::<(Seq<char>, JsonView)>::empty());
    JsonValue::Object(ms)
}

} // verus!
