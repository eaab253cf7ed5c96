//! Request handler — maps IPC requests to TDLib queries.
//!
//! `plan_request` decides, for one request, what the daemon does: answer at
//! once, ask TDLib and answer with its response, look in the cache first, or
//! send TDLib a query without waiting. The daemon's runtime carries the plan
//! out and wraps the outcome with `protocol::response_for`.

use vstd::prelude::*;
use crate::json::{Json, JsonView, at, get, as_i64, as_str, opt_str_view, find_field, clone_json};
use crate::events::{set_field, set_key, lemma_set_field_get};
use crate::protocol::{
    jstr, jstring, obj1, obj2, obj3, obj4, obj6, arr0, arr1, GET_ME, LIST_DIALOGS,
    GET_MESSAGES, SEND_MESSAGE, FORWARD_MESSAGE, DELETE_MESSAGE, DOWNLOAD_FILE, SEARCH, MARK_READ,
    GET_STATUS, LOGOUT, SHUTDOWN, AUTH_PHONE, AUTH_CODE, AUTH_PASSWORD,
};
use crate::text::{str_eq, owned};

verus! {

/// A read of the SQLite cache that may answer a request.
#[derive(Debug, PartialEq)]
pub enum CacheRead {
    Chats { limit: i64 },
    Messages { chat_id: i64, limit: i64 },
    Search { chat_id: i64, query: String, limit: i64 },
}

pub enum CacheReadView {
    Chats { limit: i64 },
    Messages { chat_id: i64, limit: i64 },
    Search { chat_id: i64, query: Seq<char>, limit: i64 },
}

impl View for CacheRead {
    type V = CacheReadView;

    open spec fn view(&self) -> CacheReadView {
        match self {
            CacheRead::Chats { limit } => CacheReadView::Chats { limit: *limit },
            CacheRead::Messages { chat_id, limit } => CacheReadView::Messages {
                chat_id: *chat_id,
                limit: *limit,
            },
            CacheRead::Search { chat_id, query, limit } => CacheReadView::Search {
                chat_id: *chat_id,
                query: query@,
                limit: *limit,
            },
        }
    }
}

/// What the daemon does for one request.
#[derive(Debug, PartialEq)]
pub enum Plan {
    /// Answer at once with this value.
    Reply(Json),
    /// Send the query to TDLib and answer with its response.
    Query(Json),
    /// Answer with the cached rows if the read gives any; otherwise as `Query`.
    CacheThenQuery(CacheRead, Json),
    /// Send the query to TDLib without waiting and answer `{"status": "sent"}`.
    Notify(Json),
    /// The chat parameter `key` names a chat by its username: ask TDLib with
    /// `query` (`searchPublicChat`), put the chat's id into the parameters
    /// with `resolved_params`, and plan the request again.
    Resolve { key: String, query: Json },
    /// Stop the daemon.
    Shutdown,
}

pub enum PlanView {
    Reply(JsonView),
    Query(JsonView),
    CacheThenQuery(CacheReadView, JsonView),
    Notify(JsonView),
    Resolve { key: Seq<char>, query: JsonView },
    Shutdown,
}

impl View for Plan {
    type V = PlanView;

    open spec fn view(&self) -> PlanView {
        match self {
            Plan::Reply(j) => PlanView::Reply(j@),
            Plan::Query(j) => PlanView::Query(j@),
            Plan::CacheThenQuery(c, j) => PlanView::CacheThenQuery(c@, j@),
            Plan::Notify(j) => PlanView::Notify(j@),
            Plan::Resolve { key, query } => PlanView::Resolve { key: key@, query: query@ },
            Plan::Shutdown => PlanView::Shutdown,
        }
    }
}

// ── TDLib queries ──────────────────────────────────────────────────

pub open spec fn ty(t: Seq<char>) -> (Seq<char>, JsonView) {
    ("@type"@, JsonView::Str(t))
}

pub open spec fn get_me_query() -> JsonView {
    JsonView::Object(seq![ty("getMe"@)])
}

pub open spec fn get_chats_query(limit: i64) -> JsonView {
    JsonView::Object(
        seq![
            ty("getChats"@),
            ("chat_list"@, JsonView::Object(seq![ty("chatListMain"@)])),
            ("limit"@, JsonView::Int(limit)),
        ],
    )
}

pub open spec fn get_chat_history_query(chat_id: i64, limit: i64) -> JsonView {
    JsonView::Object(
        seq![
            ty("getChatHistory"@),
            ("chat_id"@, JsonView::Int(chat_id)),
            ("from_message_id"@, JsonView::Int(0)),
            ("offset"@, JsonView::Int(0)),
            ("limit"@, JsonView::Int(limit)),
            ("only_local"@, JsonView::Bool(false)),
        ],
    )
}

pub open spec fn send_message_query(chat_id: i64, text: Seq<char>) -> JsonView {
    JsonView::Object(
        seq![
            ty("sendMessage"@),
            ("chat_id"@, JsonView::Int(chat_id)),
            (
                "input_message_content"@,
                JsonView::Object(
                    seq![
                        ty("inputMessageText"@),
                        (
                            "text"@,
                            JsonView::Object(
                                seq![ty("formattedText"@), ("text"@, JsonView::Str(text))],
                            ),
                        ),
                    ],
                ),
            ),
        ],
    )
}

pub open spec fn search_query(chat_id: i64, query: Seq<char>, limit: i64) -> JsonView {
    JsonView::Object(
        seq![
            ty("searchChatMessages"@),
            ("chat_id"@, JsonView::Int(chat_id)),
            ("query"@, JsonView::Str(query)),
            ("limit"@, JsonView::Int(limit)),
        ],
    )
}

pub open spec fn forward_query(from: i64, to: i64, msg_id: i64) -> JsonView {
    JsonView::Object(
        seq![
            ty("forwardMessages"@),
            ("chat_id"@, JsonView::Int(to)),
            ("from_chat_id"@, JsonView::Int(from)),
            ("message_ids"@, JsonView::Array(seq![JsonView::Int(msg_id)])),
        ],
    )
}

pub open spec fn delete_query(chat_id: i64, msg_id: i64) -> JsonView {
    JsonView::Object(
        seq![
            ty("deleteMessages"@),
            ("chat_id"@, JsonView::Int(chat_id)),
            ("message_ids"@, JsonView::Array(seq![JsonView::Int(msg_id)])),
            ("revoke"@, JsonView::Bool(true)),
        ],
    )
}

pub open spec fn view_messages_query(chat_id: i64) -> JsonView {
    JsonView::Object(
        seq![
            ty("viewMessages"@),
            ("chat_id"@, JsonView::Int(chat_id)),
            ("message_ids"@, JsonView::Array(Seq::empty())),
            ("force_read"@, JsonView::Bool(true)),
        ],
    )
}

pub open spec fn download_query(file_id: i64) -> JsonView {
    JsonView::Object(
        seq![
            ty("downloadFile"@),
            ("file_id"@, JsonView::Int(file_id)),
            ("priority"@, JsonView::Int(1)),
            ("synchronous"@, JsonView::Bool(true)),
        ],
    )
}

pub open spec fn log_out_query() -> JsonView {
    JsonView::Object(seq![ty("logOut"@)])
}

pub open spec fn set_phone_query(phone: Seq<char>) -> JsonView {
    JsonView::Object(
        seq![
            ty("setAuthenticationPhoneNumber"@),
            ("phone_number"@, JsonView::Str(phone)),
            (
                "settings"@,
                JsonView::Object(
                    seq![
                        ty("phoneNumberAuthenticationSettings"@),
                        ("is_current_phone_number"@, JsonView::Bool(true)),
                    ],
                ),
            ),
        ],
    )
}

pub open spec fn check_code_query(code: Seq<char>) -> JsonView {
    JsonView::Object(seq![ty("checkAuthenticationCode"@), ("code"@, JsonView::Str(code))])
}

pub open spec fn check_password_query(pw: Seq<char>) -> JsonView {
    JsonView::Object(seq![ty("checkAuthenticationPassword"@), ("password"@, JsonView::Str(pw))])
}

/// The reply to a `status` request.
pub open spec fn status_reply(socket: Seq<char>) -> JsonView {
    JsonView::Object(seq![("socket"@, JsonView::Str(socket))])
}

// ── Parameters ─────────────────────────────────────────────────────

/// `params[key]` as an integer.
pub open spec fn param_i64(params: JsonView, key: Seq<char>) -> Option<i64> {
    as_i64(at(params, key))
}

/// `params[key]` as a string.
pub open spec fn param_str(params: JsonView, key: Seq<char>) -> Option<Seq<char>> {
    as_str(at(params, key))
}

/// `params["limit"]`, or `d` where it is missing or not an integer.
pub open spec fn limit_or(params: JsonView, d: i64) -> i64 {
    match param_i64(params, "limit"@) {
        Some(n) => n,
        None => d,
    }
}

pub open spec fn missing(name: Seq<char>) -> Seq<char> {
    "missing "@ + name
}

/// The username in a chat reference: the text without a leading `@`.
pub open spec fn username_of(name: Seq<char>) -> Seq<char> {
    if name.len() > 0 && name[0] == '@' {
        name.drop_first()
    } else {
        name
    }
}

/// TDLib's `searchPublicChat`, which finds the chat with a username.
pub open spec fn search_public_chat_query(username: Seq<char>) -> JsonView {
    JsonView::Object(seq![ty("searchPublicChat"@), ("username"@, JsonView::Str(username))])
}

/// For a `send_message` chat that is not a chat id: resolve it where it is
/// a username (a string), else the parameter is missing. Only sending takes
/// a username; every other request needs the chat's id.
pub open spec fn resolve_or_missing(params: JsonView, key: Seq<char>) -> Result<PlanView, Seq<char>> {
    match param_str(params, key) {
        Some(name) => Ok(
            PlanView::Resolve { key, query: search_public_chat_query(username_of(name)) },
        ),
        None => Err(missing(key)),
    }
}

/// What the daemon does for `method` with `params`; `Err` holds the error message.
pub open spec fn plan_spec(method: Seq<char>, params: JsonView, socket: Seq<char>) -> Result<
    PlanView,
    Seq<char>,
> {
    if method == GET_STATUS@ {
        Ok(PlanView::Reply(status_reply(socket)))
    } else if method == GET_ME@ {
        Ok(PlanView::Query(get_me_query()))
    } else if method == LIST_DIALOGS@ {
        let limit = limit_or(params, 20);
        Ok(PlanView::CacheThenQuery(CacheReadView::Chats { limit }, get_chats_query(limit)))
    } else if method == GET_MESSAGES@ {
        match param_i64(params, "chat_id"@) {
            None => Err(missing("chat_id"@)),
            Some(chat_id) => {
                let limit = limit_or(params, 50);
                Ok(
                    PlanView::CacheThenQuery(
                        CacheReadView::Messages { chat_id, limit },
                        get_chat_history_query(chat_id, limit),
                    ),
                )
            },
        }
    } else if method == SEND_MESSAGE@ {
        match (param_i64(params, "chat_id"@), param_str(params, "text"@)) {
            (None, _) => resolve_or_missing(params, "chat_id"@),
            (Some(_), None) => Err(missing("text"@)),
            (Some(chat_id), Some(text)) => Ok(PlanView::Query(send_message_query(chat_id, text))),
        }
    } else if method == SEARCH@ {
        match (param_i64(params, "chat_id"@), param_str(params, "query"@)) {
            (None, _) => Err(missing("chat_id"@)),
            (Some(_), None) => Err(missing("query"@)),
            (Some(chat_id), Some(query)) => {
                let limit = limit_or(params, 50);
                Ok(
                    PlanView::CacheThenQuery(
                        CacheReadView::Search { chat_id, query, limit },
                        search_query(chat_id, query, limit),
                    ),
                )
            },
        }
    } else if method == FORWARD_MESSAGE@ {
        match (
            param_i64(params, "from_chat_id"@),
            param_i64(params, "to_chat_id"@),
            param_i64(params, "message_id"@),
        ) {
            (None, _, _) => Err(missing("from_chat_id"@)),
            (Some(_), None, _) => Err(missing("to_chat_id"@)),
            (Some(_), Some(_), None) => Err(missing("message_id"@)),
            (Some(from), Some(to), Some(m)) => Ok(PlanView::Query(forward_query(from, to, m))),
        }
    } else if method == DELETE_MESSAGE@ {
        match (param_i64(params, "chat_id"@), param_i64(params, "message_id"@)) {
            (None, _) => Err(missing("chat_id"@)),
            (Some(_), None) => Err(missing("message_id"@)),
            (Some(chat_id), Some(m)) => Ok(PlanView::Query(delete_query(chat_id, m))),
        }
    } else if method == MARK_READ@ {
        match param_i64(params, "chat_id"@) {
            None => Err(missing("chat_id"@)),
            Some(chat_id) => Ok(PlanView::Notify(view_messages_query(chat_id))),
        }
    } else if method == DOWNLOAD_FILE@ {
        match param_i64(params, "file_id"@) {
            None => Err(missing("file_id"@)),
            Some(file_id) => Ok(PlanView::Query(download_query(file_id))),
        }
    } else if method == LOGOUT@ {
        Ok(PlanView::Notify(log_out_query()))
    } else if method == SHUTDOWN@ {
        Ok(PlanView::Shutdown)
    } else if method == AUTH_PHONE@ {
        match param_str(params, "phone"@) {
            None => Err(missing("phone"@)),
            Some(phone) => Ok(PlanView::Notify(set_phone_query(phone))),
        }
    } else if method == AUTH_CODE@ {
        match param_str(params, "code"@) {
            None => Err(missing("code"@)),
            Some(code) => Ok(PlanView::Notify(check_code_query(code))),
        }
    } else if method == AUTH_PASSWORD@ {
        match param_str(params, "password"@) {
            None => Err(missing("password"@)),
            Some(pw) => Ok(PlanView::Notify(check_password_query(pw))),
        }
    } else {
        Err("unknown method: "@ + method)
    }
}

/// The model of a planning outcome.
pub open spec fn outcome_view(r: Result<Plan, String>) -> Result<PlanView, Seq<char>> {
    match r {
        Ok(p) => Ok(p@),
        Err(e) => Err(e@),
    }
}

// ── Executable planner ─────────────────────────────────────────────

pub(crate) fn get_i64(params: &Json, key: &str) -> (r: Option<i64>)
    ensures
        r == param_i64(params@, key@),
{
    match params.get(key) {
        Some(v) => v.as_i64(),
        None => None,
    }
}

pub(crate) fn get_string(params: &Json, key: &str) -> (r: Option<String>)
    ensures
        opt_str_view(
            match r {
                Some(s) => Some(&s),
                None => None,
            },
        ) == param_str(params@, key@),
{
    match params.get(key) {
        Some(v) => match v.as_str() {
            Some(s) => Some(s.clone()),
            None => None,
        },
        None => None,
    }
}

pub(crate) fn get_limit(params: &Json, d: i64) -> (r: i64)
    ensures
        r == limit_or(params@, d),
{
    match get_i64(params, "limit") {
        Some(n) => n,
        None => d,
    }
}

pub(crate) fn missing_error(name: &str) -> (r: String)
    ensures
        r@ == missing(name@),
{
    owned("missing ").concat(name)
}

fn ty_field(t: &str) -> (r: Json)
    ensures
        r@ == JsonView::Str(t@),
{
    jstr(t)
}

/// `name` without a leading `@`.
pub fn username_exec(name: &str) -> (r: String)
    ensures
        r@ == username_of(name@),
{
    let n = name.unicode_len();
    if n > 0 && name.get_char(0) == '@' {
        owned(name.substring_char(1, n))
    } else {
        owned(name)
    }
}

fn resolve_chat(params: &Json, key: &str) -> (r: Result<Plan, String>)
    ensures
        outcome_view(r) == resolve_or_missing(params@, key@),
{
    match get_string(params, key) {
        Some(name) => {
            let u = username_exec(name.as_str());
            let q = obj2("@type", ty_field("searchPublicChat"), "username", jstring(u));
            Ok(Plan::Resolve { key: owned(key), query: q })
        },
        None => Err(missing_error(key)),
    }
}

/// Decides what the daemon does for `method` with `params`.
/// `socket` is the daemon's socket path, reported by `status`.
pub fn plan_request(method: &str, params: &Json, socket: &str) -> (r: Result<Plan, String>)
    ensures
        outcome_view(r) == plan_spec(method@, params@, socket@),
{
    if str_eq(method, GET_STATUS) {
        Ok(Plan::Reply(obj1("socket", jstr(socket))))
    } else if str_eq(method, GET_ME) {
        Ok(Plan::Query(obj1("@type", ty_field("getMe"))))
    } else if str_eq(method, LIST_DIALOGS) {
        let limit = get_limit(params, 20);
        let q = obj3(
            "@type",
            ty_field("getChats"),
            "chat_list",
            obj1("@type", ty_field("chatListMain")),
            "limit",
            Json::Int(limit),
        );
        Ok(Plan::CacheThenQuery(CacheRead::Chats { limit }, q))
    } else if str_eq(method, GET_MESSAGES) {
        match get_i64(params, "chat_id") {
            None => Err(missing_error("chat_id")),
            Some(chat_id) => {
                let limit = get_limit(params, 50);
                let q = obj6(
                    "@type",
                    ty_field("getChatHistory"),
                    "chat_id",
                    Json::Int(chat_id),
                    "from_message_id",
                    Json::Int(0),
                    "offset",
                    Json::Int(0),
                    "limit",
                    Json::Int(limit),
                    "only_local",
                    Json::Bool(false),
                );
                Ok(Plan::CacheThenQuery(CacheRead::Messages { chat_id, limit }, q))
            },
        }
    } else if str_eq(method, SEND_MESSAGE) {
        match get_i64(params, "chat_id") {
            None => resolve_chat(params, "chat_id"),
            Some(chat_id) => match get_string(params, "text") {
                None => Err(missing_error("text")),
                Some(text) => {
                    let formatted = obj2("@type", ty_field("formattedText"), "text", jstring(text));
                    let content = obj2("@type", ty_field("inputMessageText"), "text", formatted);
                    let q = obj3(
                        "@type",
                        ty_field("sendMessage"),
                        "chat_id",
                        Json::Int(chat_id),
                        "input_message_content",
                        content,
                    );
                    Ok(Plan::Query(q))
                },
            },
        }
    } else if str_eq(method, SEARCH) {
        match get_i64(params, "chat_id") {
            None => Err(missing_error("chat_id")),
            Some(chat_id) => match get_string(params, "query") {
                None => Err(missing_error("query")),
                Some(query) => {
                    let limit = get_limit(params, 50);
                    let q = obj4(
                        "@type",
                        ty_field("searchChatMessages"),
                        "chat_id",
                        Json::Int(chat_id),
                        "query",
                        jstring(query.clone()),
                        "limit",
                        Json::Int(limit),
                    );
                    Ok(Plan::CacheThenQuery(CacheRead::Search { chat_id, query, limit }, q))
                },
            },
        }
    } else if str_eq(method, FORWARD_MESSAGE) {
        match get_i64(params, "from_chat_id") {
            None => Err(missing_error("from_chat_id")),
            Some(from) => match get_i64(params, "to_chat_id") {
                None => Err(missing_error("to_chat_id")),
                Some(to) => match get_i64(params, "message_id") {
                    None => Err(missing_error("message_id")),
                    Some(m) => {
                        let ids = arr1(Json::Int(m));
                        let q = obj4(
                            "@type",
                            ty_field("forwardMessages"),
                            "chat_id",
                            Json::Int(to),
                            "from_chat_id",
                            Json::Int(from),
                            "message_ids",
                            ids,
                        );
                        Ok(Plan::Query(q))
                    },
                },
            },
        }
    } else if str_eq(method, DELETE_MESSAGE) {
        match get_i64(params, "chat_id") {
            None => Err(missing_error("chat_id")),
            Some(chat_id) => match get_i64(params, "message_id") {
                None => Err(missing_error("message_id")),
                Some(m) => {
                    let ids = arr1(Json::Int(m));
                    let q = obj4(
                        "@type",
                        ty_field("deleteMessages"),
                        "chat_id",
                        Json::Int(chat_id),
                        "message_ids",
                        ids,
                        "revoke",
                        Json::Bool(true),
                    );
                    Ok(Plan::Query(q))
                },
            },
        }
    } else if str_eq(method, MARK_READ) {
        match get_i64(params, "chat_id") {
            None => Err(missing_error("chat_id")),
            Some(chat_id) => {
                let ids = arr0();
                let q = obj4(
                    "@type",
                    ty_field("viewMessages"),
                    "chat_id",
                    Json::Int(chat_id),
                    "message_ids",
                    ids,
                    "force_read",
                    Json::Bool(true),
                );
                Ok(Plan::Notify(q))
            },
        }
    } else if str_eq(method, DOWNLOAD_FILE) {
        match get_i64(params, "file_id") {
            None => Err(missing_error("file_id")),
            Some(file_id) => {
                let q = obj4(
                    "@type",
                    ty_field("downloadFile"),
                    "file_id",
                    Json::Int(file_id),
                    "priority",
                    Json::Int(1),
                    "synchronous",
                    Json::Bool(true),
                );
                Ok(Plan::Query(q))
            },
        }
    } else if str_eq(method, LOGOUT) {
        Ok(Plan::Notify(obj1("@type", ty_field("logOut"))))
    } else if str_eq(method, SHUTDOWN) {
        Ok(Plan::Shutdown)
    } else if str_eq(method, AUTH_PHONE) {
        match get_string(params, "phone") {
            None => Err(missing_error("phone")),
            Some(phone) => {
                let settings = obj2(
                    "@type",
                    ty_field("phoneNumberAuthenticationSettings"),
                    "is_current_phone_number",
                    Json::Bool(true),
                );
                let q = obj3(
                    "@type",
                    ty_field("setAuthenticationPhoneNumber"),
                    "phone_number",
                    jstring(phone),
                    "settings",
                    settings,
                );
                Ok(Plan::Notify(q))
            },
        }
    } else if str_eq(method, AUTH_CODE) {
        match get_string(params, "code") {
            None => Err(missing_error("code")),
            Some(code) => Ok(
                Plan::Notify(obj2("@type", ty_field("checkAuthenticationCode"), "code", jstring(code))),
            ),
        }
    } else if str_eq(method, AUTH_PASSWORD) {
        match get_string(params, "password") {
            None => Err(missing_error("password")),
            Some(pw) => Ok(
                Plan::Notify(
                    obj2("@type", ty_field("checkAuthenticationPassword"), "password", jstring(pw)),
                ),
            ),
        }
    } else {
        Err(owned("unknown method: ").concat(method))
    }
}

// ── Chats named by username ────────────────────────────────────────

/// The error for a username that names no chat.
pub open spec fn chat_not_found(params: JsonView, key: Seq<char>) -> Seq<char> {
    "chat not found: "@ + match param_str(params, key) {
        Some(n) => n,
        None => Seq::empty(),
    }
}

/// The parameters once TDLib has answered a `Resolve` plan with `chat`: the
/// chat parameter `key` becomes the chat's `id`. A reply without an id (a
/// TDLib error) means no chat has that username.
pub open spec fn resolved_spec(params: JsonView, key: Seq<char>, chat: JsonView) -> Result<
    JsonView,
    Seq<char>,
> {
    match as_i64(at(chat, "id"@)) {
        Some(id) => match params {
            JsonView::Object(fs) => Ok(JsonView::Object(set_field(fs, key, JsonView::Int(id)))),
            _ => Err(missing(key)),
        },
        None => Err(chat_not_found(params, key)),
    }
}

pub open spec fn params_outcome_view(r: Result<Json, String>) -> Result<JsonView, Seq<char>> {
    match r {
        Ok(p) => Ok(p@),
        Err(e) => Err(e@),
    }
}

/// Puts the id of the chat TDLib found (`chat`, its reply to `searchPublicChat`)
/// into the chat parameter `key` of `params`.
pub fn resolved_params(params: &Json, key: &str, chat: &Json) -> (r: Result<Json, String>)
    ensures
        params_outcome_view(r) == resolved_spec(params@, key@, chat@),
{
    match get_i64(chat, "id") {
        Some(id) => {
            if params.is_object() {
                Ok(set_key(clone_json(params), key, Json::Int(id)))
            } else {
                Err(missing_error(key))
            }
        },
        None => {
            let name = match get_string(params, key) {
                Some(n) => n,
                None => String::new(),
            };
            Err(owned("chat not found: ").concat(name.as_str()))
        },
    }
}

proof fn lemma_set_field_other(fs: Seq<(Seq<char>, JsonView)>, k: Seq<char>, v: JsonView, k2: Seq<char>)
    requires
        k2 != k,
    ensures
        find_field(set_field(fs, k, v), k2) == find_field(fs, k2),
    decreases fs.len(),
{
    if fs.len() == 0 {
        let one = seq![(k, v)];
        assert(one[0].0 != k2);
        assert(one.drop_first() =~= Seq::<(Seq<char>, JsonView)>::empty());
        assert(find_field(one.drop_first(), k2) is None);
        assert(find_field(one, k2) is None);
        assert(set_field(fs, k, v) == one);
    } else if fs[0].0 == k {
        let u = fs.update(0, (k, v));
        assert(u[0] == (k, v));
        assert(u.drop_first() =~= fs.drop_first());
        assert(find_field(u, k2) == find_field(u.drop_first(), k2));
    } else {
        lemma_set_field_other(fs.drop_first(), k, v, k2);
        let s2 = seq![fs[0]] + set_field(fs.drop_first(), k, v);
        assert(s2[0] == fs[0]);
        assert(s2.drop_first() =~= set_field(fs.drop_first(), k, v));
    }
}

/// Resolving a username changes only the chat parameter, which becomes the
/// chat's id, so planning the request again never asks to resolve that
/// parameter a second time.
pub proof fn lemma_resolution_progress(
    method: Seq<char>,
    params: JsonView,
    socket: Seq<char>,
    key: Seq<char>,
    query: JsonView,
    chat: JsonView,
)
    requires
        plan_spec(method, params, socket) == Ok::<PlanView, Seq<char>>(PlanView::Resolve { key, query }),
        resolved_spec(params, key, chat) is Ok,
    ensures
        param_i64(resolved_spec(params, key, chat)->Ok_0, key) == as_i64(at(chat, "id"@)),
        forall|k2: Seq<char>|
            k2 != key ==> #[trigger] get(resolved_spec(params, key, chat)->Ok_0, k2) == get(params, k2),
        !(plan_spec(method, resolved_spec(params, key, chat)->Ok_0, socket) matches Ok(
            PlanView::Resolve { key: k2, .. },
        ) && k2 == key),
{
    let fs = params->Object_0;
    let id = as_i64(at(chat, "id"@))->Some_0;
    lemma_set_field_get(fs, key, JsonView::Int(id));
    assert forall|k2: Seq<char>| k2 != key implies #[trigger] get(
        resolved_spec(params, key, chat)->Ok_0,
        k2,
    ) == get(params, k2) by {
        lemma_set_field_other(fs, key, JsonView::Int(id), k2);
    }
}

// ── Laws on page sizes ─────────────────────────────────────────────

/// The page size a request asks for: its integer `limit`, else `default`.
pub open spec fn requested_limit(params: JsonView, default: i64) -> i64 {
    match as_i64(at(params, "limit"@)) {
        Some(n) => n,
        None => default,
    }
}

/// `history` pages through a chat with the size the user asked for: for a
/// request with an integer `chat_id`, both the cache read and TDLib's
/// `getChatHistory` query are for that chat and carry the request's integer
/// `limit`, and 50 only where it has none.
pub proof fn lemma_history_uses_requested_limit(params: JsonView, socket: Seq<char>)
    requires
        as_i64(at(params, "chat_id"@)) is Some,
    ensures
        plan_spec(GET_MESSAGES@, params, socket) matches Ok(
            PlanView::CacheThenQuery(CacheReadView::Messages { chat_id, limit }, q),
        ) && chat_id == as_i64(at(params, "chat_id"@))->Some_0 && limit == requested_limit(params, 50)
            && as_i64(at(q, "limit"@)) == Some(limit) && as_i64(at(q, "chat_id"@)) == Some(chat_id)
            && as_str(at(q, "@type"@)) == Some("getChatHistory"@),
{
    reveal_strlit("status");
    reveal_strlit("get_me");
    reveal_strlit("list_dialogs");
    reveal_strlit("get_messages");
    reveal_strlit("@type");
    reveal_strlit("chat_id");
    reveal_strlit("from_message_id");
    reveal_strlit("offset");
    reveal_strlit("limit");
    assert(GET_MESSAGES@[0] != GET_STATUS@[0]);
    assert(GET_MESSAGES@.len() != GET_ME@.len());
    assert(GET_MESSAGES@[0] != LIST_DIALOGS@[0]);
    let c = as_i64(at(params, "chat_id"@))->Some_0;
    let l = requested_limit(params, 50);
    assert(l == limit_or(params, 50));
    let q = get_chat_history_query(c, l);
    assert(plan_spec(GET_MESSAGES@, params, socket) == Ok::<PlanView, Seq<char>>(
        PlanView::CacheThenQuery(CacheReadView::Messages { chat_id: c, limit: l }, q),
    ));
    let fs = q->Object_0;
    assert("limit"@[0] != "@type"@[0] && "limit"@[0] != "chat_id"@[0]);
    assert("limit"@[0] != "from_message_id"@[0] && "limit"@[0] != "offset"@[0]);
    assert("chat_id"@[0] != "@type"@[0]);
    assert(fs.drop_first().drop_first().drop_first().drop_first()[0] == ("limit"@, JsonView::Int(l)));
    assert(find_field(fs.drop_first().drop_first().drop_first().drop_first(), "limit"@) == Some(
        JsonView::Int(l),
    ));
    assert(find_field(fs.drop_first().drop_first().drop_first(), "limit"@) == Some(JsonView::Int(l)));
    assert(find_field(fs.drop_first().drop_first(), "limit"@) == Some(JsonView::Int(l)));
    assert(find_field(fs.drop_first(), "limit"@) == Some(JsonView::Int(l)));
    assert(find_field(fs, "limit"@) == Some(JsonView::Int(l)));
    assert(find_field(fs.drop_first(), "chat_id"@) == Some(JsonView::Int(c)));
    assert(find_field(fs, "chat_id"@) == Some(JsonView::Int(c)));
}

/// `list_dialogs` reads the cache, and asks TDLib's main chat list, for the
/// number of chats the request asks for (20 where it names none).
pub proof fn lemma_chat_list_uses_requested_limit(params: JsonView, socket: Seq<char>)
    ensures
        plan_spec(LIST_DIALOGS@, params, socket) matches Ok(
            PlanView::CacheThenQuery(CacheReadView::Chats { limit }, q),
        ) && limit == requested_limit(params, 20) && as_i64(at(q, "limit"@)) == Some(limit)
            && as_str(at(q, "@type"@)) == Some("getChats"@),
{
    reveal_strlit("status");
    reveal_strlit("get_me");
    reveal_strlit("list_dialogs");
    reveal_strlit("@type");
    reveal_strlit("chat_list");
    reveal_strlit("limit");
    assert(LIST_DIALOGS@[0] != GET_STATUS@[0] && LIST_DIALOGS@[0] != GET_ME@[0]);
    let l = requested_limit(params, 20);
    assert(l == limit_or(params, 20));
    let fs = get_chats_query(l)->Object_0;
    reveal_strlit("chat_list");
    assert(fs[0].0 == "@type"@ && fs[1].0 == "chat_list"@);
    assert("@type"@[0] != "limit"@[0]);
    assert(fs[0].0 != "limit"@ && fs[1].0 != "limit"@);
    crate::json::lemma_find_field_index(fs, "limit"@, 2);
    crate::json::lemma_find_field_index(fs, "@type"@, 0);
}

/// `search` looks in the cache, and asks TDLib, for the request's chat and
/// query with the number of results it asks for (50 where it names none).
pub proof fn lemma_search_uses_request(params: JsonView, socket: Seq<char>)
    requires
        as_i64(at(params, "chat_id"@)) is Some,
        as_str(at(params, "query"@)) is Some,
    ensures
        ({
            let c = as_i64(at(params, "chat_id"@))->Some_0;
            let t = as_str(at(params, "query"@))->Some_0;
            plan_spec(SEARCH@, params, socket) matches Ok(
                PlanView::CacheThenQuery(CacheReadView::Search { chat_id, query, limit }, q),
            ) && chat_id == c && query == t && limit == requested_limit(params, 50) && as_i64(
                at(q, "chat_id"@),
            ) == Some(c) && as_str(at(q, "query"@)) == Some(t) && as_i64(at(q, "limit"@)) == Some(
                limit,
            ) && as_str(at(q, "@type"@)) == Some("searchChatMessages"@)
        }),
{
    reveal_strlit("status");
    reveal_strlit("get_me");
    reveal_strlit("list_dialogs");
    reveal_strlit("get_messages");
    reveal_strlit("send_message");
    reveal_strlit("search");
    reveal_strlit("@type");
    reveal_strlit("chat_id");
    reveal_strlit("query");
    reveal_strlit("limit");
    assert(SEARCH@[1] != GET_STATUS@[1] && SEARCH@[0] != GET_ME@[0] && SEARCH@[0] != LIST_DIALOGS@[0]);
    assert(SEARCH@[0] != GET_MESSAGES@[0] && SEARCH@[2] != SEND_MESSAGE@[2]);
    let c = as_i64(at(params, "chat_id"@))->Some_0;
    let t = as_str(at(params, "query"@))->Some_0;
    let l = requested_limit(params, 50);
    assert(l == limit_or(params, 50));
    let fs = search_query(c, t, l)->Object_0;
    assert(fs[0].0 == "@type"@ && fs[1].0 == "chat_id"@ && fs[2].0 == "query"@);
    assert("@type"@[0] != "query"@[0] && "@type"@[0] != "limit"@[0] && "query"@[0] != "limit"@[0]);
    assert(fs[0].0 != "chat_id"@);
    assert(fs[0].0 != "query"@ && fs[1].0 != "query"@);
    assert(fs[0].0 != "limit"@ && fs[1].0 != "limit"@ && fs[2].0 != "limit"@);
    crate::json::lemma_find_field_index(fs, "@type"@, 0);
    crate::json::lemma_find_field_index(fs, "chat_id"@, 1);
    crate::json::lemma_find_field_index(fs, "query"@, 2);
    crate::json::lemma_find_field_index(fs, "limit"@, 3);
}

/// `send_message` with an integer chat and a text asks TDLib to send
/// exactly that text to exactly that chat.
pub proof fn lemma_send_sends_the_text(params: JsonView, socket: Seq<char>)
    requires
        as_i64(at(params, "chat_id"@)) is Some,
        as_str(at(params, "text"@)) is Some,
    ensures
        plan_spec(SEND_MESSAGE@, params, socket) matches Ok(PlanView::Query(q)) && as_str(at(q, "@type"@))
            == Some("sendMessage"@) && at(q, "chat_id"@) == at(params, "chat_id"@) && at(
            at(at(q, "input_message_content"@), "text"@),
            "text"@,
        ) == at(params, "text"@),
{
    reveal_strlit("status");
    reveal_strlit("get_me");
    reveal_strlit("list_dialogs");
    reveal_strlit("get_messages");
    reveal_strlit("send_message");
    reveal_strlit("@type");
    reveal_strlit("chat_id");
    reveal_strlit("input_message_content");
    reveal_strlit("text");
    assert(SEND_MESSAGE@[0] != GET_STATUS@[0] || SEND_MESSAGE@[1] != GET_STATUS@[1]);
    assert(SEND_MESSAGE@[0] != GET_ME@[0] && SEND_MESSAGE@[0] != LIST_DIALOGS@[0]);
    assert(SEND_MESSAGE@[0] != GET_MESSAGES@[0]);
    let c = as_i64(at(params, "chat_id"@))->Some_0;
    let t = as_str(at(params, "text"@))->Some_0;
    let q = send_message_query(c, t);
    let fs = q->Object_0;
    assert(fs[0].0 == "@type"@ && fs[1].0 == "chat_id"@);
    assert(fs[0].0 != "chat_id"@);
    assert(fs[0].0 != "input_message_content"@ && fs[1].0 != "input_message_content"@);
    crate::json::lemma_find_field_index(fs, "@type"@, 0);
    crate::json::lemma_find_field_index(fs, "chat_id"@, 1);
    crate::json::lemma_find_field_index(fs, "input_message_content"@, 2);
    let content = fs[2].1->Object_0;
    assert(content[0].0 == "@type"@);
    assert(content[0].0 != "text"@);
    crate::json::lemma_find_field_index(content, "text"@, 1);
    let formatted = content[1].1->Object_0;
    assert(formatted[0].0 == "@type"@);
    assert(formatted[0].0 != "text"@);
    crate::json::lemma_find_field_index(formatted, "text"@, 1);
}

/// `forward_message` with integer chats and message asks TDLib to forward
/// that one message from the source chat into the destination chat.
pub proof fn lemma_forward_keeps_direction(params: JsonView, socket: Seq<char>)
    requires
        as_i64(at(params, "from_chat_id"@)) is Some,
        as_i64(at(params, "to_chat_id"@)) is Some,
        as_i64(at(params, "message_id"@)) is Some,
    ensures
        plan_spec(FORWARD_MESSAGE@, params, socket) matches Ok(PlanView::Query(q)) && as_str(
            at(q, "@type"@),
        ) == Some("forwardMessages"@) && at(q, "from_chat_id"@) == at(params, "from_chat_id"@) && at(
            q,
            "chat_id"@,
        ) == at(params, "to_chat_id"@) && at(q, "message_ids"@) == JsonView::Array(
            seq![at(params, "message_id"@)],
        ),
{
    reveal_strlit("status");
    reveal_strlit("get_me");
    reveal_strlit("list_dialogs");
    reveal_strlit("get_messages");
    reveal_strlit("send_message");
    reveal_strlit("search");
    reveal_strlit("forward_message");
    reveal_strlit("@type");
    reveal_strlit("chat_id");
    reveal_strlit("from_chat_id");
    reveal_strlit("message_ids");
    assert(FORWARD_MESSAGE@[0] != GET_STATUS@[0] && FORWARD_MESSAGE@[0] != GET_ME@[0]);
    assert(FORWARD_MESSAGE@[0] != LIST_DIALOGS@[0] && FORWARD_MESSAGE@[0] != GET_MESSAGES@[0]);
    assert(FORWARD_MESSAGE@[0] != SEND_MESSAGE@[0] && FORWARD_MESSAGE@[0] != SEARCH@[0]);
    let from = as_i64(at(params, "from_chat_id"@))->Some_0;
    let to = as_i64(at(params, "to_chat_id"@))->Some_0;
    let m = as_i64(at(params, "message_id"@))->Some_0;
    let fs = forward_query(from, to, m)->Object_0;
    assert(fs[0].0 != "chat_id"@);
    assert(fs[0].0 == "@type"@);
    assert("@type"@.len() == 5);
    assert("from_chat_id"@.len() == 12);
    assert(fs[1].0 == "chat_id"@);
    assert(fs[0].0 != "from_chat_id"@ && fs[1].0 != "from_chat_id"@);
    assert(fs[0].0 != "message_ids"@ && fs[1].0 != "message_ids"@ && fs[2].0 != "message_ids"@);
    crate::json::lemma_find_field_index(fs, "@type"@, 0);
    crate::json::lemma_find_field_index(fs, "chat_id"@, 1);
    crate::json::lemma_find_field_index(fs, "from_chat_id"@, 2);
    crate::json::lemma_find_field_index(fs, "message_ids"@, 3);
}

/// The reply sent for a notification once TDLib has been asked.
pub open spec fn sent_reply() -> JsonView {
    JsonView::Object(seq![("status"@, JsonView::Str("sent"@))])
}

pub fn sent_status() -> (r: Json)
    ensures
        r@ == sent_reply(),
{
    obj1("status", jstr("sent"))
}

} // verus!
