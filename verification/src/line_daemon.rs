//! The line daemon: it serves newline-delimited JSON and calls TDLib
//! through typed function values. `plan_typed` decides, for one request,
//! which TDLib function it calls (with which arguments) or what it answers
//! at once; `auth_event` is the event it broadcasts for an authorization
//! state.

use vstd::prelude::*;
use crate::json::{Json, JsonView, at, get, as_i64, as_str, find_field};
use crate::events::{int_or_zero, message_text, message_record_spec};
use crate::protocol::{
    jstr, obj1, obj2, obj3, GET_ME, LIST_DIALOGS, GET_MESSAGES, SEND_MESSAGE, FORWARD_MESSAGE,
    DELETE_MESSAGE, DOWNLOAD_FILE, SEARCH, MARK_READ, GET_STATUS, LOGOUT, SHUTDOWN, AUTH_UPDATE,
};
use crate::handler::{
    param_i64, param_str, limit_or, missing, get_i64, get_string, get_limit, missing_error, username_of,
    username_exec, requested_limit,
};
use crate::text::{str_eq, owned};

verus! {

/// A typed TDLib function, with the arguments that depend on the request.
#[derive(Debug, PartialEq)]
pub enum TdCall {
    /// `getMe`.
    GetMe,
    /// `getChats` on the main chat list.
    GetChats { limit: i32 },
    /// `sendMessage`: plain text without entities, in the chat's main
    /// thread, with no reply, markup, options, draft clearing or link preview.
    SendMessage { chat_id: i64, text: String },
    /// `getChatHistory` from the newest message, not only local.
    GetChatHistory { chat_id: i64, limit: i32 },
    /// `searchChatMessages` from the newest message, with no sender,
    /// thread, topic or filter.
    SearchChatMessages { chat_id: i64, query: String, limit: i32 },
    /// `forwardMessages` of one message into the main thread, neither as a
    /// copy nor without its caption.
    ForwardMessages { chat_id: i64, from_chat_id: i64, message_id: i64 },
    /// `deleteMessages` of one message, for everyone.
    DeleteMessages { chat_id: i64, message_id: i64 },
    /// `viewMessages` with no message ids, forcing the chat read.
    ViewMessages { chat_id: i64 },
    /// `downloadFile` of the whole file, priority 1, synchronously.
    DownloadFile { file_id: i32 },
    /// `logOut`.
    LogOut,
}

pub enum TdCallView {
    GetMe,
    GetChats { limit: i32 },
    SendMessage { chat_id: i64, text: Seq<char> },
    GetChatHistory { chat_id: i64, limit: i32 },
    SearchChatMessages { chat_id: i64, query: Seq<char>, limit: i32 },
    ForwardMessages { chat_id: i64, from_chat_id: i64, message_id: i64 },
    DeleteMessages { chat_id: i64, message_id: i64 },
    ViewMessages { chat_id: i64 },
    DownloadFile { file_id: i32 },
    LogOut,
}

impl View for TdCall {
    type V = TdCallView;

    open spec fn view(&self) -> TdCallView {
        match self {
            TdCall::GetMe => TdCallView::GetMe,
            TdCall::GetChats { limit } => TdCallView::GetChats { limit: *limit },
            TdCall::SendMessage { chat_id, text } => TdCallView::SendMessage {
                chat_id: *chat_id,
                text: text@,
            },
            TdCall::GetChatHistory { chat_id, limit } => TdCallView::GetChatHistory {
                chat_id: *chat_id,
                limit: *limit,
            },
            TdCall::SearchChatMessages { chat_id, query, limit } => TdCallView::SearchChatMessages {
                chat_id: *chat_id,
                query: query@,
                limit: *limit,
            },
            TdCall::ForwardMessages { chat_id, from_chat_id, message_id } => TdCallView::ForwardMessages {
                chat_id: *chat_id,
                from_chat_id: *from_chat_id,
                message_id: *message_id,
            },
            TdCall::DeleteMessages { chat_id, message_id } => TdCallView::DeleteMessages {
                chat_id: *chat_id,
                message_id: *message_id,
            },
            TdCall::ViewMessages { chat_id } => TdCallView::ViewMessages { chat_id: *chat_id },
            TdCall::DownloadFile { file_id } => TdCallView::DownloadFile { file_id: *file_id },
            TdCall::LogOut => TdCallView::LogOut,
        }
    }
}

/// What the line daemon does for one request.
#[derive(Debug, PartialEq)]
pub enum TypedPlan {
    /// Answer at once with this value.
    Reply(Json),
    /// Call TDLib and answer with its response.
    Call(TdCall),
    /// The chat parameter `key` names a chat by its username: call
    /// `searchPublicChat` with `username`, put the chat's id into the
    /// parameters with `handler::resolved_params`, and plan the request again.
    Resolve { key: String, username: String },
    /// Stop the daemon.
    Shutdown,
}

pub enum TypedPlanView {
    Reply(JsonView),
    Call(TdCallView),
    Resolve { key: Seq<char>, username: Seq<char> },
    Shutdown,
}

impl View for TypedPlan {
    type V = TypedPlanView;

    open spec fn view(&self) -> TypedPlanView {
        match self {
            TypedPlan::Reply(j) => TypedPlanView::Reply(j@),
            TypedPlan::Call(c) => TypedPlanView::Call(c@),
            TypedPlan::Resolve { key, username } => TypedPlanView::Resolve { key: key@, username: username@ },
            TypedPlan::Shutdown => TypedPlanView::Shutdown,
        }
    }
}

pub open spec fn typed_outcome_view(r: Result<TypedPlan, String>) -> Result<TypedPlanView, Seq<char>> {
    match r {
        Ok(p) => Ok(p@),
        Err(e) => Err(e@),
    }
}

/// The reply to `status`: whether TDLib is authorized, and the socket.
pub open spec fn typed_status_reply(authorized: bool, socket: Seq<char>) -> JsonView {
    JsonView::Object(
        seq![("authorized"@, JsonView::Bool(authorized)), ("socket"@, JsonView::Str(socket))],
    )
}

/// The page size TDLib is asked for: `limit` (20 where absent), truncated to 32 bits.
pub open spec fn typed_limit(params: JsonView) -> i32 {
    limit_or(params, 20) as i32
}

/// For a `send_message` chat that is not a chat id: resolve it where it is
/// a username (a string), else the parameter is missing.
pub open spec fn typed_resolve_or_missing(params: JsonView, key: Seq<char>) -> Result<TypedPlanView, Seq<char>> {
    match param_str(params, key) {
        Some(name) => Ok(TypedPlanView::Resolve { key, username: username_of(name) }),
        None => Err(missing(key)),
    }
}

fn typed_resolve_chat(params: &Json, key: &str) -> (r: Result<TypedPlan, String>)
    ensures
        typed_outcome_view(r) == typed_resolve_or_missing(params@, key@),
{
    match get_string(params, key) {
        Some(name) => Ok(TypedPlan::Resolve { key: owned(key), username: username_exec(name.as_str()) }),
        None => Err(missing_error(key)),
    }
}

/// What the line daemon does for `method` with `params`; `Err` holds the error message.
pub open spec fn typed_plan_spec(
    method: Seq<char>,
    params: JsonView,
    authorized: bool,
    socket: Seq<char>,
) -> Result<TypedPlanView, Seq<char>> {
    if method == GET_STATUS@ {
        Ok(TypedPlanView::Reply(typed_status_reply(authorized, socket)))
    } else if method == GET_ME@ {
        Ok(TypedPlanView::Call(TdCallView::GetMe))
    } else if method == LIST_DIALOGS@ {
        Ok(TypedPlanView::Call(TdCallView::GetChats { limit: typed_limit(params) }))
    } else if method == SEND_MESSAGE@ {
        match (param_i64(params, "chat_id"@), param_str(params, "text"@)) {
            (None, _) => typed_resolve_or_missing(params, "chat_id"@),
            (Some(_), None) => Err(missing("text"@)),
            (Some(chat_id), Some(text)) => Ok(
                TypedPlanView::Call(TdCallView::SendMessage { chat_id, text }),
            ),
        }
    } else if method == GET_MESSAGES@ {
        match param_i64(params, "chat_id"@) {
            None => Err(missing("chat_id"@)),
            Some(chat_id) => Ok(
                TypedPlanView::Call(
                    TdCallView::GetChatHistory { chat_id, limit: typed_limit(params) },
                ),
            ),
        }
    } else if method == SEARCH@ {
        match (param_i64(params, "chat_id"@), param_str(params, "query"@)) {
            (None, _) => Err(missing("chat_id"@)),
            (Some(_), None) => Err(missing("query"@)),
            (Some(chat_id), Some(query)) => Ok(
                TypedPlanView::Call(
                    TdCallView::SearchChatMessages { chat_id, query, limit: typed_limit(params) },
                ),
            ),
        }
    } else if method == FORWARD_MESSAGE@ {
        match (
            param_i64(params, "from_chat_id"@),
            param_i64(params, "to_chat_id"@),
            param_i64(params, "message_id"@),
        ) {
            (None, _, _) => Err(missing("from_chat_id"@)),
            (Some(_), None, _) => Err(missing("to_chat_id"@)),
            (Some(_), Some(_), None) => Err(missing("message_id"@)),
            (Some(from), Some(to), Some(m)) => Ok(
                TypedPlanView::Call(
                    TdCallView::ForwardMessages { chat_id: to, from_chat_id: from, message_id: m },
                ),
            ),
        }
    } else if method == DELETE_MESSAGE@ {
        match (param_i64(params, "chat_id"@), param_i64(params, "message_id"@)) {
            (None, _) => Err(missing("chat_id"@)),
            (Some(_), None) => Err(missing("message_id"@)),
            (Some(chat_id), Some(m)) => Ok(
                TypedPlanView::Call(TdCallView::DeleteMessages { chat_id, message_id: m }),
            ),
        }
    } else if method == MARK_READ@ {
        match param_i64(params, "chat_id"@) {
            None => Err(missing("chat_id"@)),
            Some(chat_id) => Ok(TypedPlanView::Call(TdCallView::ViewMessages { chat_id })),
        }
    } else if method == DOWNLOAD_FILE@ {
        match param_i64(params, "file_id"@) {
            None => Err(missing("file_id"@)),
            Some(file_id) => Ok(
                TypedPlanView::Call(TdCallView::DownloadFile { file_id: file_id as i32 }),
            ),
        }
    } else if method == LOGOUT@ {
        Ok(TypedPlanView::Call(TdCallView::LogOut))
    } else if method == SHUTDOWN@ {
        Ok(TypedPlanView::Shutdown)
    } else {
        Err("unknown method: "@ + method)
    }
}

/// Decides what the line daemon does for `method` with `params`, given
/// whether TDLib is authorized and the daemon's socket path.
pub fn plan_typed(method: &str, params: &Json, authorized: bool, socket: &str) -> (r: Result<TypedPlan, String>)
    ensures
        typed_outcome_view(r) == typed_plan_spec(method@, params@, authorized, socket@),
{
    if str_eq(method, GET_STATUS) {
        Ok(TypedPlan::Reply(obj2("authorized", Json::Bool(authorized), "socket", jstr(socket))))
    } else if str_eq(method, GET_ME) {
        Ok(TypedPlan::Call(TdCall::GetMe))
    } else if str_eq(method, LIST_DIALOGS) {
        let limit = get_limit(params, 20) as i32;
        Ok(TypedPlan::Call(TdCall::GetChats { limit }))
    } else if str_eq(method, SEND_MESSAGE) {
        match get_i64(params, "chat_id") {
            None => typed_resolve_chat(params, "chat_id"),
            Some(chat_id) => match get_string(params, "text") {
                None => Err(missing_error("text")),
                Some(text) => Ok(TypedPlan::Call(TdCall::SendMessage { chat_id, text })),
            },
        }
    } else if str_eq(method, GET_MESSAGES) {
        match get_i64(params, "chat_id") {
            None => Err(missing_error("chat_id")),
            Some(chat_id) => {
                let limit = get_limit(params, 20) as i32;
                Ok(TypedPlan::Call(TdCall::GetChatHistory { chat_id, limit }))
            },
        }
    } else if str_eq(method, SEARCH) {
        match get_i64(params, "chat_id") {
            None => Err(missing_error("chat_id")),
            Some(chat_id) => match get_string(params, "query") {
                None => Err(missing_error("query")),
                Some(query) => {
                    let limit = get_limit(params, 20) as i32;
                    Ok(TypedPlan::Call(TdCall::SearchChatMessages { chat_id, query, limit }))
                },
            },
        }
    } else if str_eq(method, FORWARD_MESSAGE) {
        match get_i64(params, "from_chat_id") {
            None => Err(missing_error("from_chat_id")),
            Some(from) => match get_i64(params, "to_chat_id") {
                None => Err(missing_error("to_chat_id")),
                Some(to) => match get_i64(params, "message_id") {
                    None => Err(missing_error("message_id")),
                    Some(m) => Ok(
                        TypedPlan::Call(
                            TdCall::ForwardMessages { chat_id: to, from_chat_id: from, message_id: m },
                        ),
                    ),
                },
            },
        }
    } else if str_eq(method, DELETE_MESSAGE) {
        match get_i64(params, "chat_id") {
            None => Err(missing_error("chat_id")),
            Some(chat_id) => match get_i64(params, "message_id") {
                None => Err(missing_error("message_id")),
                Some(m) => Ok(TypedPlan::Call(TdCall::DeleteMessages { chat_id, message_id: m })),
            },
        }
    } else if str_eq(method, MARK_READ) {
        match get_i64(params, "chat_id") {
            None => Err(missing_error("chat_id")),
            Some(chat_id) => Ok(TypedPlan::Call(TdCall::ViewMessages { chat_id })),
        }
    } else if str_eq(method, DOWNLOAD_FILE) {
        match get_i64(params, "file_id") {
            None => Err(missing_error("file_id")),
            Some(file_id) => Ok(TypedPlan::Call(TdCall::DownloadFile { file_id: file_id as i32 })),
        }
    } else if str_eq(method, LOGOUT) {
        Ok(TypedPlan::Call(TdCall::LogOut))
    } else if str_eq(method, SHUTDOWN) {
        Ok(TypedPlan::Shutdown)
    } else {
        Err(owned("unknown method: ").concat(method))
    }
}

// ── Events ─────────────────────────────────────────────────────────

/// An authorization state as TDLib's typed updates report it.
#[derive(Debug, Clone, Copy, PartialEq, Eq, Structural)]
pub enum TdAuthState {
    WaitPhoneNumber,
    WaitCode,
    WaitPassword,
    Ready,
    Closing,
    Closed,
    WaitRegistration,
    WaitOtherDeviceConfirmation,
    LoggingOut,
}

/// The short name under which a state reaches clients.
pub open spec fn typed_state_name(s: TdAuthState) -> Seq<char> {
    match s {
        TdAuthState::WaitPhoneNumber => "wait_phone"@,
        TdAuthState::WaitCode => "wait_code"@,
        TdAuthState::WaitPassword => "wait_password"@,
        TdAuthState::Ready => "ready"@,
        TdAuthState::Closing => "closing"@,
        TdAuthState::Closed => "closed"@,
        TdAuthState::WaitRegistration => "wait_registration"@,
        TdAuthState::WaitOtherDeviceConfirmation => "wait_other_device"@,
        TdAuthState::LoggingOut => "logging_out"@,
    }
}

/// The `auth_update` event for a state.
pub open spec fn auth_event_spec(s: TdAuthState) -> JsonView {
    JsonView::Object(
        seq![
            ("type"@, JsonView::Str("event"@)),
            ("name"@, JsonView::Str(AUTH_UPDATE@)),
            ("data"@, JsonView::Object(seq![("state"@, JsonView::Str(typed_state_name(s)))])),
        ],
    )
}

fn typed_state_name_exec(s: TdAuthState) -> (r: &'static str)
    ensures
        r@ == typed_state_name(s),
{
    match s {
        TdAuthState::WaitPhoneNumber => "wait_phone",
        TdAuthState::WaitCode => "wait_code",
        TdAuthState::WaitPassword => "wait_password",
        TdAuthState::Ready => "ready",
        TdAuthState::Closing => "closing",
        TdAuthState::Closed => "closed",
        TdAuthState::WaitRegistration => "wait_registration",
        TdAuthState::WaitOtherDeviceConfirmation => "wait_other_device",
        TdAuthState::LoggingOut => "logging_out",
    }
}

/// The event broadcast for an authorization state, and whether the state
/// marks the session authorized.
pub fn auth_event(s: TdAuthState) -> (r: (Json, bool))
    ensures
        r.0@ == auth_event_spec(s),
        r.1 == (s == TdAuthState::Ready),
{
    let data = obj1("state", jstr(typed_state_name_exec(s)));
    (obj3("type", jstr("event"), "name", jstr(AUTH_UPDATE), "data", data), s == TdAuthState::Ready)
}

/// The event broadcast for a new-message update.
pub open spec fn new_message_event(update: JsonView) -> JsonView {
    JsonView::Object(
        seq![
            ("type"@, JsonView::Str("event"@)),
            ("name"@, JsonView::Str("new_message"@)),
            ("data"@, update),
        ],
    )
}

/// The `new_message` event for a typed update, given as JSON.
pub fn message_event(update: Json) -> (r: Json)
    ensures
        r@ == new_message_event(update@),
{
    obj3("type", jstr("event"), "name", jstr("new_message"), "data", update)
}

// ── Laws ───────────────────────────────────────────────────────────

/// Every new-message event the line daemon broadcasts reaches its cache:
/// for a message with a chat and an id, the cache updater writes its row.
pub proof fn lemma_broadcast_messages_are_cached(update: JsonView)
    requires
        int_or_zero(at(at(update, "message"@), "id"@)) != 0,
        int_or_zero(at(at(update, "message"@), "chat_id"@)) != 0,
    ensures
        message_record_spec(new_message_event(update)) == Some(
            (
                int_or_zero(at(at(update, "message"@), "id"@)),
                int_or_zero(at(at(update, "message"@), "chat_id"@)),
                as_i64(at(at(at(update, "message"@), "sender_id"@), "user_id"@)),
                message_text(at(update, "message"@)),
                int_or_zero(at(at(update, "message"@), "date"@)),
            ),
        ),
{
    reveal_strlit("type");
    reveal_strlit("name");
    reveal_strlit("data");
    let ev = new_message_event(update);
    let fs = seq![
        ("type"@, JsonView::Str("event"@)),
        ("name"@, JsonView::Str("new_message"@)),
        ("data"@, update),
    ];
    assert("name"@[0] != "type"@[0]);
    assert("data"@[0] != "type"@[0] && "data"@[0] != "name"@[0]);
    assert(fs.drop_first() =~= seq![("name"@, JsonView::Str("new_message"@)), ("data"@, update)]);
    assert(fs.drop_first().drop_first() =~= seq![("data"@, update)]);
    assert(ev == JsonView::Object(fs));
    assert(find_field(fs.drop_first(), "name"@) == Some(JsonView::Str("new_message"@)));
    assert(find_field(fs, "name"@) == find_field(fs.drop_first(), "name"@));
    assert(find_field(fs.drop_first().drop_first(), "data"@) == Some(update));
    assert(find_field(fs.drop_first(), "data"@) == find_field(fs.drop_first().drop_first(), "data"@));
    assert(find_field(fs, "data"@) == find_field(fs.drop_first(), "data"@));
    assert(at(ev, "type"@) == JsonView::Str("event"@));
    assert(at(ev, "name"@) == JsonView::Str("new_message"@));
    assert(get(ev, "data"@) == Some(update));
}

/// The line daemon and the framed daemon refuse the same requests with the
/// same message, and resolve the same chat parameters by the same username,
/// for every method but the interactive authorization ones (which only the
/// framed daemon serves).
pub proof fn lemma_same_refusals(method: Seq<char>, params: JsonView, authorized: bool, socket: Seq<char>)
    requires
        method != crate::protocol::AUTH_PHONE@,
        method != crate::protocol::AUTH_CODE@,
        method != crate::protocol::AUTH_PASSWORD@,
    ensures
        crate::handler::plan_spec(method, params, socket) is Err <==> typed_plan_spec(
            method,
            params,
            authorized,
            socket,
        ) is Err,
        crate::handler::plan_spec(method, params, socket) is Err ==> crate::handler::plan_spec(
            method,
            params,
            socket,
        )->Err_0 == typed_plan_spec(method, params, authorized, socket)->Err_0,
        crate::handler::plan_spec(method, params, socket) is Ok && crate::handler::plan_spec(
            method,
            params,
            socket,
        )->Ok_0 is Resolve <==> typed_plan_spec(method, params, authorized, socket) is Ok
            && typed_plan_spec(method, params, authorized, socket)->Ok_0 is Resolve,
        crate::handler::plan_spec(method, params, socket) matches Ok(
            crate::handler::PlanView::Resolve { key, query },
        ) ==> typed_plan_spec(method, params, authorized, socket) == Ok::<TypedPlanView, Seq<char>>(
            TypedPlanView::Resolve {
                key,
                username: as_str(query->Object_0[1].1)->Some_0,
            },
        ),
{
    reveal_strlit("get_messages");
    reveal_strlit("send_message");
    assert(GET_MESSAGES@[0] != SEND_MESSAGE@[0]);
}


/// The line daemon pages with the size the client asked for: `list_dialogs`,
/// and `get_messages` and `search` for an integer chat, call TDLib with the
/// request's integer `limit` (20 where it has none), cut to 32 bits as
/// TDLib's typed functions take it.
pub proof fn lemma_typed_calls_use_requested_limit(params: JsonView, authorized: bool, socket: Seq<char>)
    ensures
        typed_plan_spec(LIST_DIALOGS@, params, authorized, socket) == Ok::<TypedPlanView, Seq<char>>(
            TypedPlanView::Call(TdCallView::GetChats { limit: requested_limit(params, 20) as i32 }),
        ),
        as_i64(at(params, "chat_id"@)) matches Some(c) ==> typed_plan_spec(
            GET_MESSAGES@,
            params,
            authorized,
            socket,
        ) == Ok::<TypedPlanView, Seq<char>>(
            TypedPlanView::Call(
                TdCallView::GetChatHistory { chat_id: c, limit: requested_limit(params, 20) as i32 },
            ),
        ),
        as_i64(at(params, "chat_id"@)) is Some && as_str(at(params, "query"@)) is Some ==> typed_plan_spec(
            SEARCH@,
            params,
            authorized,
            socket,
        ) == Ok::<TypedPlanView, Seq<char>>(
            TypedPlanView::Call(
                TdCallView::SearchChatMessages {
                    chat_id: as_i64(at(params, "chat_id"@))->Some_0,
                    query: as_str(at(params, "query"@))->Some_0,
                    limit: requested_limit(params, 20) as i32,
                },
            ),
        ),
{
    reveal_strlit("status");
    reveal_strlit("get_me");
    reveal_strlit("list_dialogs");
    reveal_strlit("send_message");
    reveal_strlit("get_messages");
    reveal_strlit("search");
    assert(LIST_DIALOGS@[0] != GET_STATUS@[0] && LIST_DIALOGS@[0] != GET_ME@[0]);
    assert(GET_MESSAGES@[0] != GET_STATUS@[0] && GET_MESSAGES@.len() != GET_ME@.len());
    assert(GET_MESSAGES@[0] != LIST_DIALOGS@[0] && GET_MESSAGES@[0] != SEND_MESSAGE@[0]);
    assert(SEARCH@[1] != GET_STATUS@[1] && SEARCH@[0] != GET_ME@[0]);
    assert(SEARCH@[0] != LIST_DIALOGS@[0] && SEARCH@[2] != SEND_MESSAGE@[2]);
    assert(SEARCH@[0] != GET_MESSAGES@[0]);
    assert(SEARCH@ != GET_STATUS@ && SEARCH@ != GET_ME@ && SEARCH@ != LIST_DIALOGS@);
    assert(SEARCH@ != SEND_MESSAGE@ && SEARCH@ != GET_MESSAGES@);
    assert(limit_or(params, 20) == requested_limit(params, 20));
}

} // verus!
