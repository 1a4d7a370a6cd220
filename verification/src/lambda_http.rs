//! The envelope: how a request is read out of the incoming event and how a
//! result or an error is wrapped into the response.

use crate::errors::{message, AdminErr, AdminErrView};
use crate::json::{
    json_null, json_object, json_parse, json_signed, json_string, json_text, json_view, member,
    parse_json, text_of, value_as_str, value_clone, value_get, value_to_text, JsonValue,
};
use crate::strings::text;
use crate::router::{outcome_view, payload_view, RouteArgs, RouteArgsView};
use vstd::prelude::*;
use vstd::std_specs::convert::FromSpecImpl;

verus! {

/// An error as the caller sees it: an HTTP status and a description.
#[derive(Debug, Clone, PartialEq, Eq)]
pub struct HttpError {
    pub status_code: i32,
    pub msg: Option<String>,
}

/// An [`HttpError`] with its description as a sequence of characters.
pub struct HttpErrorView {
    pub status_code: int,
    pub msg: Option<Seq<char>>,
}

impl View for HttpError {
    type V = HttpErrorView;

    open spec fn view(&self) -> HttpErrorView {
        HttpErrorView { status_code: self.status_code as int, msg: text(self.msg) }
    }
}

/// The HTTP status of each kind of error.
pub open spec fn status_of_error(e: AdminErrView) -> int {
    match e {
        AdminErrView::ConfNone(_) | AdminErrView::Ec2None | AdminErrView::Unknown | AdminErrView::Ec2Unknown(
            _,
        ) => 500,
        AdminErrView::InvdToken => 403,
        _ => 400,
    }
}

/// An error as the caller sees it: its status and its canonical message.
pub open spec fn http_error_of(e: AdminErrView) -> HttpErrorView {
    HttpErrorView { status_code: status_of_error(e), msg: Some(message(e)) }
}

impl From<AdminErr> for HttpError {
    fn from(e: AdminErr) -> (http: HttpError)
        ensures
            http@ == http_error_of(e@),
    {
        let code: i32 = match e {
            AdminErr::ConfNone(_) | AdminErr::Ec2None | AdminErr::Unknown | AdminErr::Ec2Unknown(
                _,
            ) => 500,
            AdminErr::InvdToken => 403,
            _ => 400,
        };
        HttpError { status_code: code, msg: Some(e.to_string()) }
    }
}

/// The conversion builds its message anew, so that it is stated by the
/// `ensures` of `from` over views and not by an equation between values.
impl FromSpecImpl<AdminErr> for HttpError {
    open spec fn obeys_from_spec() -> bool {
        false
    }

    open spec fn from_spec(e: AdminErr) -> HttpError {
        arbitrary()
    }
}

/// The body of an error response: an object with the description under
/// `msg`, `null` where there is none.
pub open spec fn msg_body(msg: Option<Seq<char>>) -> JsonValue {
    JsonValue::Object(
        map![
            "msg"@ => match msg {
                Some(m) => JsonValue::Str(m),
                None => JsonValue::Null,
            },
        ],
    )
}

/// The headers of every response.
pub open spec fn response_headers() -> JsonValue {
    JsonValue::Object(map!["Content-Type"@ => JsonValue::Str("application/json"@)])
}

/// The response envelope: the status, the headers, and the body as the
/// text of its JSON form.
pub open spec fn envelope(code: int, body: JsonValue) -> JsonValue {
    JsonValue::Object(
        map![
            "statusCode"@ => JsonValue::Int(code),
            "headers"@ => response_headers(),
            "body"@ => JsonValue::Str(json_text(body)),
        ],
    )
}

/// Wraps a body and a status into the response envelope.
pub fn lambda_response(body: serde_json::Value, code: i32) -> (response: serde_json::Value)
    ensures
        json_view(response) == envelope(code as int, json_view(body)),
{
    let mut header_fields: Vec<(String, serde_json::Value)> = Vec::new();
    header_fields.push(("Content-Type".to_owned(), json_string("application/json".to_owned())));
    let headers = json_object(header_fields);
    proof {
        assert(header_fields@[0].0@ == "Content-Type"@);
        assert(json_view(headers)->Object_0 =~= response_headers()->Object_0);
    }
    let mut fields: Vec<(String, serde_json::Value)> = Vec::new();
    fields.push(("statusCode".to_owned(), json_signed(code as i64)));
    fields.push(("headers".to_owned(), headers));
    fields.push(("body".to_owned(), json_string(value_to_text(&body))));
    proof {
        reveal_strlit("statusCode");
        reveal_strlit("headers");
        reveal_strlit("body");
        assert("statusCode"@.len() == 10);
        assert("headers"@.len() == 7);
        assert("body"@.len() == 4);
    }
    let response = json_object(fields);
    proof {
        assert(fields@[0].0@ == "statusCode"@);
        assert(fields@[1].0@ == "headers"@);
        assert(fields@[2].0@ == "body"@);
        assert(json_view(response)->Object_0 =~= envelope(
            code as int,
            json_view(body),
        )->Object_0);
    }
    response
}

/// The response for an error as the caller sees it.
pub open spec fn error_response(e: HttpErrorView) -> JsonValue {
    envelope(e.status_code, msg_body(e.msg))
}

impl From<HttpError> for serde_json::Value {
    fn from(e: HttpError) -> (response: serde_json::Value)
        ensures
            json_view(response) == error_response(e@),
    {
        let msg = match e.msg {
            Some(description) => json_string(description),
            None => json_null(),
        };
        let mut fields: Vec<(String, serde_json::Value)> = Vec::new();
        fields.push(("msg".to_owned(), msg));
        let body = json_object(fields);
        proof {
            assert(fields@[0].0@ == "msg"@);
            assert(json_view(body)->Object_0 =~= msg_body(e@.msg)->Object_0);
        }
        lambda_response(body, e.status_code)
    }
}

/// Stated by the `ensures` of `from`, over what the response holds.
impl FromSpecImpl<HttpError> for serde_json::Value {
    open spec fn obeys_from_spec() -> bool {
        false
    }

    open spec fn from_spec(e: HttpError) -> serde_json::Value {
        arbitrary()
    }
}

impl From<AdminErr> for serde_json::Value {
    fn from(e: AdminErr) -> (response: serde_json::Value)
        ensures
            json_view(response) == error_response(http_error_of(e@)),
    {
        let http = HttpError::from(e);
        serde_json::Value::from(http)
    }
}

/// Stated by the `ensures` of `from`, over what the response holds.
impl FromSpecImpl<AdminErr> for serde_json::Value {
    open spec fn obeys_from_spec() -> bool {
        false
    }

    open spec fn from_spec(e: AdminErr) -> serde_json::Value {
        arbitrary()
    }
}

/// The response for the outcome of a request: status 200 around the body, or
/// the error's status around its message.
pub open spec fn response_of(outcome: Result<JsonValue, AdminErrView>) -> JsonValue {
    match outcome {
        Ok(body) => envelope(200, body),
        Err(e) => error_response(http_error_of(e)),
    }
}

/// Shapes what the router returned into the response.
pub fn respond(res: Result<serde_json::Value, AdminErr>) -> (response: serde_json::Value)
    ensures
        json_view(response) == response_of(outcome_view(res)),
{
    match res {
        Ok(body) => lambda_response(body, 200),
        Err(e) => serde_json::Value::from(e),
    }
}

/// The string under `key` in an object; `None` where `v` is no object, has
/// no such member, or the member is no string.
pub open spec fn string_member(v: JsonValue, key: Seq<char>) -> Option<Seq<char>> {
    match member(v, key) {
        Some(m) => text_of(m),
        None => None,
    }
}

/// Reads an optional string member of a JSON object.
pub fn string_field(v: &serde_json::Value, key: &str) -> (s: Option<String>)
    ensures
        text(s) == string_member(json_view(*v), key@),
{
    match value_get(v, key) {
        Some(m) => match value_as_str(m) {
            Some(s) => Some(s.to_owned()),
            None => None,
        },
        None => None,
    }
}

/// The request body of an event. The runtime may deliver it as a JSON
/// object or as a string that holds one; a string is parsed.
pub open spec fn body_of(req: JsonValue) -> Option<JsonValue> {
    match member(req, "body"@) {
        None => None,
        Some(body) => match text_of(body) {
            Some(t) => json_parse(t),
            None => Some(body),
        },
    }
}

/// Reads the request body out of an event.
pub fn body_from_req(req: &serde_json::Value) -> (body: Option<serde_json::Value>)
    ensures
        payload_view(body) == body_of(json_view(*req)),
{
    match value_get(req, "body") {
        None => None,
        Some(body) => match value_as_str(body) {
            Some(t) => parse_json(t),
            None => Some(value_clone(body)),
        },
    }
}

/// The command of an event: `body.command` where it is a string.
pub open spec fn command_in(req: JsonValue) -> Option<Seq<char>> {
    match body_of(req) {
        Some(body) => string_member(body, "command"@),
        None => None,
    }
}

/// Reads the command out of an event.
pub fn command_from_req(req: &serde_json::Value) -> (command: Option<String>)
    ensures
        text(command) == command_in(json_view(*req)),
{
    match body_from_req(req) {
        Some(body) => string_field(&body, "command"),
        None => None,
    }
}

/// The token of an event: `headers.Authorization` where it is a string,
/// taken verbatim.
pub open spec fn token_in(req: JsonValue) -> Option<Seq<char>> {
    match member(req, "headers"@) {
        Some(headers) => string_member(headers, "Authorization"@),
        None => None,
    }
}

/// Reads the bearer token out of an event.
pub fn token_from_req(req: &serde_json::Value) -> (token: Option<String>)
    ensures
        text(token) == token_in(json_view(*req)),
{
    match value_get(req, "headers") {
        Some(headers) => string_field(headers, "Authorization"),
        None => None,
    }
}

/// The payload of an event: `body.data`, whatever JSON value it is.
pub open spec fn data_in(req: JsonValue) -> Option<JsonValue> {
    match body_of(req) {
        Some(body) => member(body, "data"@),
        None => None,
    }
}

/// Reads the payload out of an event.
pub fn data_from_req(req: &serde_json::Value) -> (data: Option<serde_json::Value>)
    ensures
        payload_view(data) == data_in(json_view(*req)),
{
    match body_from_req(req) {
        Some(body) => match value_get(&body, "data") {
            Some(data) => Some(value_clone(data)),
            None => None,
        },
        None => None,
    }
}

/// The request that an event carries.
pub open spec fn request_in(req: JsonValue) -> RouteArgsView {
    RouteArgsView { token: token_in(req), command: command_in(req), data: data_in(req) }
}

/// Reads the router's arguments out of an event.
pub fn args_from_req(req: &serde_json::Value) -> (args: RouteArgs)
    ensures
        args@ == request_in(json_view(*req)),
{
    let command = command_from_req(req);
    let data = data_from_req(req);
    let token = token_from_req(req);
    RouteArgs { token, command, data }
}

} // verus!
