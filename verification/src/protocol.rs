//! IPC protocol types.
//!
//! Wire format: 4-byte big-endian length prefix + JSON payload (see `frame`).

use vstd::prelude::*;
use crate::json::{Json, JsonView, lemma_fields_view, lemma_items_view, fields_view, items_view};
use crate::text::owned;

verus! {

// ── Client → Daemon ────────────────────────────────────────────────

/// A request from a client; `id` is matched by the response.
#[derive(Debug, PartialEq)]
pub struct Request {
    pub id: String,
    pub method: String,
    pub params: Json,
}

// ── Daemon → Client ────────────────────────────────────────────────

#[derive(Debug, PartialEq)]
pub struct RpcError {
    pub code: i32,
    pub message: String,
}

#[derive(Debug, PartialEq)]
pub struct Response {
    pub id: String,
    pub result: Option<Json>,
    pub error: Option<RpcError>,
}

#[derive(Debug, PartialEq)]
pub struct Event {
    pub name: String,
    pub data: Json,
}

#[derive(Debug, PartialEq)]
pub struct AuthState {
    pub state: String,
    pub hint: Option<String>,
}

/// Everything the daemon sends to a client.
#[derive(Debug, PartialEq)]
pub enum ServerMessage {
    Response(Response),
    Event(Event),
    AuthState(AuthState),
}

/// The model of a server message.
pub enum ServerMessageView {
    Response { id: Seq<char>, result: Option<JsonView>, error: Option<(i32, Seq<char>)> },
    Event { name: Seq<char>, data: JsonView },
    AuthState { state: Seq<char>, hint: Option<Seq<char>> },
}

impl View for ServerMessage {
    type V = ServerMessageView;

    open spec fn view(&self) -> ServerMessageView {
        match self {
            ServerMessage::Response(r) => ServerMessageView::Response {
                id: r.id@,
                result: match r.result {
                    Some(v) => Some(v@),
                    None => None,
                },
                error: match r.error {
                    Some(e) => Some((e.code, e.message@)),
                    None => None,
                },
            },
            ServerMessage::Event(e) => ServerMessageView::Event { name: e.name@, data: e.data@ },
            ServerMessage::AuthState(a) => ServerMessageView::AuthState {
                state: a.state@,
                hint: match a.hint {
                    Some(h) => Some(h@),
                    None => None,
                },
            },
        }
    }
}

// ── Well-known method names ────────────────────────────────────────

pub const GET_ME: &'static str = "get_me";
pub const LIST_DIALOGS: &'static str = "list_dialogs";
pub const GET_MESSAGES: &'static str = "get_messages";
pub const SEND_MESSAGE: &'static str = "send_message";
pub const FORWARD_MESSAGE: &'static str = "forward_message";
pub const DELETE_MESSAGE: &'static str = "delete_message";
pub const DOWNLOAD_FILE: &'static str = "download_file";
pub const SEARCH: &'static str = "search";
pub const MARK_READ: &'static str = "mark_read";
pub const GET_STATUS: &'static str = "status";
pub const LOGOUT: &'static str = "logout";
pub const SHUTDOWN: &'static str = "shutdown";
pub const AUTH_PHONE: &'static str = "auth_phone";
pub const AUTH_CODE: &'static str = "auth_code";
pub const AUTH_PASSWORD: &'static str = "auth_password";

// ── Well-known event names ─────────────────────────────────────────

pub const NEW_MESSAGE: &'static str = "new_message";
pub const AUTH_UPDATE: &'static str = "auth_update";
pub const FILE_UPDATE: &'static str = "file_update";

// ── JSON building blocks ───────────────────────────────────────────

/// The model of a list of fields.
pub open spec fn pairs_view(fs: Seq<(String, Json)>) -> Seq<(Seq<char>, JsonView)> {
    Seq::new(fs.len(), |i: int| (fs[i].0@, fs[i].1@))
}

/// A JSON string.
pub fn jstr(s: &str) -> (r: Json)
    ensures
        r@ == JsonView::Str(s@),
{
    Json::Str(owned(s))
}

/// A JSON string owning `s`.
pub fn jstring(s: String) -> (r: Json)
    ensures
        r@ == JsonView::Str(s@),
{
    Json::Str(s)
}

/// One field of an object.
pub fn field(k: &str, v: Json) -> (r: (String, Json))
    ensures
        r.0@ == k@,
        r.1 == v,
{
    (owned(k), v)
}

/// A JSON object with the given fields, in order.
pub fn object(fields: Vec<(String, Json)>) -> (r: Json)
    ensures
        r@ == JsonView::Object(pairs_view(fields@)),
{
    proof {
        lemma_fields_view(fields@, fields@.len());
        assert(fields_view(fields@, fields@.len()) =~= pairs_view(fields@));
    }
    Json::Object(fields)
}

/// A JSON array with the given items, in order.
pub fn array(items: Vec<Json>) -> (r: Json)
    ensures
        r@ == JsonView::Array(Seq::new(items@.len(), |i: int| items@[i]@)),
{
    proof {
        lemma_items_view(items@, items@.len());
        assert(items_view(items@, items@.len()) =~= Seq::new(items@.len(), |i: int| items@[i]@));
    }
    Json::Array(items)
}

/// A JSON object of 1 field, in this order.
pub fn obj1(k1: &str, v1: Json) -> (r: Json)
    ensures
        r@ == JsonView::Object(seq![(k1@, v1@)]),
{
    let fs = vec![field(k1, v1)];
    proof {
        assert(pairs_view(fs@) =~= seq![(k1@, v1@)]);
    }
    object(fs)
}

/// A JSON object of 2 fields, in this order.
pub fn obj2(k1: &str, v1: Json, k2: &str, v2: Json) -> (r: Json)
    ensures
        r@ == JsonView::Object(seq![(k1@, v1@), (k2@, v2@)]),
{
    let fs = vec![field(k1, v1), field(k2, v2)];
    proof {
        assert(pairs_view(fs@) =~= seq![(k1@, v1@), (k2@, v2@)]);
    }
    object(fs)
}

/// A JSON object of 3 fields, in this order.
pub fn obj3(k1: &str, v1: Json, k2: &str, v2: Json, k3: &str, v3: Json) -> (r: Json)
    ensures
        r@ == JsonView::Object(seq![(k1@, v1@), (k2@, v2@), (k3@, v3@)]),
{
    let fs = vec![field(k1, v1), field(k2, v2), field(k3, v3)];
    proof {
        assert(pairs_view(fs@) =~= seq![(k1@, v1@), (k2@, v2@), (k3@, v3@)]);
    }
    object(fs)
}

/// A JSON object of 4 fields, in this order.
pub fn obj4(k1: &str, v1: Json, k2: &str, v2: Json, k3: &str, v3: Json, k4: &str, v4: Json) -> (r: Json)
    ensures
        r@ == JsonView::Object(seq![(k1@, v1@), (k2@, v2@), (k3@, v3@), (k4@, v4@)]),
{
    let fs = vec![field(k1, v1), field(k2, v2), field(k3, v3), field(k4, v4)];
    proof {
        assert(pairs_view(fs@) =~= seq![(k1@, v1@), (k2@, v2@), (k3@, v3@), (k4@, v4@)]);
    }
    object(fs)
}

/// A JSON object of 5 fields, in this order.
pub fn obj5(k1: &str, v1: Json, k2: &str, v2: Json, k3: &str, v3: Json, k4: &str, v4: Json, k5: &str, v5: Json) -> (r: Json)
    ensures
        r@ == JsonView::Object(seq![(k1@, v1@), (k2@, v2@), (k3@, v3@), (k4@, v4@), (k5@, v5@)]),
{
    let fs = vec![field(k1, v1), field(k2, v2), field(k3, v3), field(k4, v4), field(k5, v5)];
    proof {
        assert(pairs_view(fs@) =~= seq![(k1@, v1@), (k2@, v2@), (k3@, v3@), (k4@, v4@), (k5@, v5@)]);
    }
    object(fs)
}

/// A JSON object of 6 fields, in this order.
pub fn obj6(k1: &str, v1: Json, k2: &str, v2: Json, k3: &str, v3: Json, k4: &str, v4: Json, k5: &str, v5: Json, k6: &str, v6: Json) -> (r: Json)
    ensures
        r@ == JsonView::Object(seq![(k1@, v1@), (k2@, v2@), (k3@, v3@), (k4@, v4@), (k5@, v5@), (k6@, v6@)]),
{
    let fs = vec![field(k1, v1), field(k2, v2), field(k3, v3), field(k4, v4), field(k5, v5), field(k6, v6)];
    proof {
        assert(pairs_view(fs@) =~= seq![(k1@, v1@), (k2@, v2@), (k3@, v3@), (k4@, v4@), (k5@, v5@), (k6@, v6@)]);
    }
    object(fs)
}

/// A JSON array of one item.
pub fn arr1(v: Json) -> (r: Json)
    ensures
        r@ == JsonView::Array(seq![v@]),
{
    let items = vec![v];
    let r = array(items);
    proof {
        assert(Seq::new(items@.len(), |i: int| items@[i]@) =~= seq![v@]);
    }
    r
}

/// An empty JSON array.
pub fn arr0() -> (r: Json)
    ensures
        r@ == JsonView::Array(Seq::empty()),
{
    let items: Vec<Json> = Vec::new();
    let r = array(items);
    proof {
        assert(Seq::new(items@.len(), |i: int| items@[i]@) =~= Seq::<JsonView>::empty());
    }
    r
}

/// `{"@type": t}` followed by `rest`.
pub open spec fn typed(t: Seq<char>, rest: Seq<(Seq<char>, JsonView)>) -> JsonView {
    JsonView::Object(seq![("@type"@, JsonView::Str(t))] + rest)
}

// ── Responses ──────────────────────────────────────────────────────

/// The message that carries the outcome of request `id`: its result, or
/// the error text with code -1.
pub open spec fn outcome_message(id: Seq<char>, outcome: Result<JsonView, Seq<char>>) -> ServerMessageView {
    match outcome {
        Ok(v) => ServerMessageView::Response { id, result: Some(v), error: None },
        Err(m) => ServerMessageView::Response { id, result: None, error: Some((-1i32, m)) },
    }
}

pub open spec fn outcome_view(o: Result<Json, String>) -> Result<JsonView, Seq<char>> {
    match o {
        Ok(v) => Ok(v@),
        Err(m) => Err(m@),
    }
}

/// The response to request `id`: its result, or the error with code -1.
pub fn response_for(id: String, outcome: Result<Json, String>) -> (r: Response)
    ensures
        ServerMessage::Response(r)@ == outcome_message(id@, outcome_view(outcome)),
        r.id@ == id@,
        outcome matches Ok(v) ==> r.result == Some(v) && r.error is None,
        outcome matches Err(m) ==> (r.result is None && (r.error matches Some(e) && e.code == -1
            && e.message@ == m@)),
{
    match outcome {
        Ok(val) => Response { id, result: Some(val), error: None },
        Err(message) => Response {
            id,
            result: None,
            error: Some(RpcError { code: -1, message }),
        },
    }
}

/// The message sent back for a frame that is not a valid request.
pub open spec fn parse_error_view() -> JsonView {
    JsonView::Object(
        seq![
            ("type"@, JsonView::Str("response"@)),
            ("id"@, JsonView::Str(""@)),
            (
                "error"@,
                JsonView::Object(
                    seq![("code"@, JsonView::Int(-32700i64)), ("message"@, JsonView::Str("Parse error"@))],
                ),
            ),
        ],
    )
}

pub fn parse_error_message() -> (r: Json)
    ensures
        r@ == parse_error_view(),
{
    let err = obj2("code", Json::Int(-32700), "message", jstr("Parse error"));
    obj3("type", jstr("response"), "id", jstr(""), "error", err)
}

/// The answer the line server gives to a line that is not a request (its
/// requests carry numeric ids, so the id is 0).
pub open spec fn line_parse_error_view() -> JsonView {
    JsonView::Object(
        seq![
            ("type"@, JsonView::Str("response"@)),
            ("id"@, JsonView::Int(0)),
            (
                "error"@,
                JsonView::Object(
                    seq![("code"@, JsonView::Int(-32700i64)), ("message"@, JsonView::Str("Parse error"@))],
                ),
            ),
        ],
    )
}

pub fn line_parse_error() -> (r: Json)
    ensures
        r@ == line_parse_error_view(),
{
    let err = obj2("code", Json::Int(-32700), "message", jstr("Parse error"));
    obj3("type", jstr("response"), "id", Json::Int(0), "error", err)
}

} // verus!
