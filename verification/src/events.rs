//! TDLib updates: what the cache updater writes for each update, how a raw
//! TDLib message is classified, and how updates are turned into the events
//! that the daemon pushes to its clients.

use vstd::prelude::*;
use crate::json::{
    Json, JsonView, at, get, as_i64, as_str, as_bool, or_null, opt_view, opt_str_view, at_ref,
    opt_i64, opt_str, opt_bool,
};
use crate::protocol::{jstr, jstring, obj1, obj2, obj3, pairs_view, field};
use crate::json::{find_field, fields_view, lemma_fields_view};
use crate::text::{str_eq, owned, decimal, i64_to_string};
use crate::models::{AuthState, AuthStateView, ContentType, auth_state_from, content_type_str};

verus! {

// ── Content types ──────────────────────────────────────────────────

/// The cache's name for a TDLib content type.
pub open spec fn content_type_name(t: Seq<char>) -> Seq<char> {
    if t == "messageText"@ {
        "text"@
    } else if t == "messagePhoto"@ {
        "photo"@
    } else if t == "messageVideo"@ {
        "video"@
    } else if t == "messageDocument"@ {
        "document"@
    } else if t == "messageSticker"@ {
        "sticker"@
    } else if t == "messageVoiceNote"@ || t == "messageAudio"@ {
        "voice"@
    } else {
        "other"@
    }
}

/// The TDLib content type of a message: `content["@type"]`, `messageText` where absent.
pub open spec fn message_content_type(msg: JsonView) -> Seq<char> {
    match as_str(at(at(msg, "content"@), "@type"@)) {
        Some(s) => s,
        None => "messageText"@,
    }
}

/// The cache's content type of a TDLib message.
pub open spec fn content_type_of(msg: JsonView) -> Seq<char> {
    content_type_name(message_content_type(msg))
}

fn content_type_name_exec(t: &str) -> (r: String)
    ensures
        r@ == content_type_name(t@),
{
    if str_eq(t, "messageText") {
        owned("text")
    } else if str_eq(t, "messagePhoto") {
        owned("photo")
    } else if str_eq(t, "messageVideo") {
        owned("video")
    } else if str_eq(t, "messageDocument") {
        owned("document")
    } else if str_eq(t, "messageSticker") {
        owned("sticker")
    } else if str_eq(t, "messageVoiceNote") || str_eq(t, "messageAudio") {
        owned("voice")
    } else {
        owned("other")
    }
}

/// Classifies a TDLib message by its content type.
pub fn detect_content_type(msg: &Json) -> (r: String)
    ensures
        r@ == content_type_of(msg@),
{
    let content = at_ref(Some(msg), "content");
    match opt_str(at_ref(content, "@type")) {
        Some(t) => content_type_name_exec(t.as_str()),
        None => content_type_name_exec("messageText"),
    }
}

// ── Cache updates ──────────────────────────────────────────────────

/// A write to the cache.
#[derive(Debug, PartialEq)]
pub enum CacheOp {
    /// Insert or update a message row; its raw JSON is the update's `message`.
    UpsertMessage {
        chat_id: i64,
        msg_id: i64,
        sender_id: Option<i64>,
        text: Option<String>,
        date: i64,
        is_outgoing: bool,
        content_type: String,
    },
    /// Record the last message of a chat.
    UpdateChatLastMessage { chat_id: i64, msg_id: i64 },
    /// Insert or update a chat row (an absent last message keeps the stored one).
    UpsertChat { chat_id: i64, title: String, kind: String, last_msg_id: Option<i64>, unread: i32 },
}

pub enum CacheOpView {
    UpsertMessage {
        chat_id: i64,
        msg_id: i64,
        sender_id: Option<i64>,
        text: Option<Seq<char>>,
        date: i64,
        is_outgoing: bool,
        content_type: Seq<char>,
    },
    UpdateChatLastMessage { chat_id: i64, msg_id: i64 },
    UpsertChat {
        chat_id: i64,
        title: Seq<char>,
        kind: Seq<char>,
        last_msg_id: Option<i64>,
        unread: i32,
    },
}

impl View for CacheOp {
    type V = CacheOpView;

    open spec fn view(&self) -> CacheOpView {
        match self {
            CacheOp::UpsertMessage {
                chat_id,
                msg_id,
                sender_id,
                text,
                date,
                is_outgoing,
                content_type,
            } => CacheOpView::UpsertMessage {
                chat_id: *chat_id,
                msg_id: *msg_id,
                sender_id: *sender_id,
                text: match text {
                    Some(t) => Some(t@),
                    None => None,
                },
                date: *date,
                is_outgoing: *is_outgoing,
                content_type: content_type@,
            },
            CacheOp::UpdateChatLastMessage { chat_id, msg_id } => CacheOpView::UpdateChatLastMessage {
                chat_id: *chat_id,
                msg_id: *msg_id,
            },
            CacheOp::UpsertChat { chat_id, title, kind, last_msg_id, unread } => CacheOpView::UpsertChat {
                chat_id: *chat_id,
                title: title@,
                kind: kind@,
                last_msg_id: *last_msg_id,
                unread: *unread,
            },
        }
    }
}

pub open spec fn int_or_zero(j: JsonView) -> i64 {
    match as_i64(j) {
        Some(n) => n,
        None => 0,
    }
}

/// The text of a message: its text, else its caption.
pub open spec fn message_text(msg: JsonView) -> Option<Seq<char>> {
    match as_str(at(at(at(msg, "content"@), "text"@), "text"@)) {
        Some(t) => Some(t),
        None => as_str(at(at(at(msg, "content"@), "caption"@), "text"@)),
    }
}

/// The row written for a TDLib message, if it has a chat and an id.
pub open spec fn message_row(msg: JsonView) -> Option<CacheOpView> {
    let msg_id = int_or_zero(at(msg, "id"@));
    let chat_id = int_or_zero(at(msg, "chat_id"@));
    if chat_id != 0 && msg_id != 0 {
        Some(
            CacheOpView::UpsertMessage {
                chat_id,
                msg_id,
                sender_id: as_i64(at(at(msg, "sender_id"@), "user_id"@)),
                text: message_text(msg),
                date: int_or_zero(at(msg, "date"@)),
                is_outgoing: match as_bool(at(msg, "is_outgoing"@)) {
                    Some(b) => b,
                    None => false,
                },
                content_type: content_type_of(msg),
            },
        )
    } else {
        None
    }
}

/// The cache write for a TDLib update, if any.
pub open spec fn cache_op_spec(ev: JsonView) -> Option<CacheOpView> {
    let ev_type = match as_str(at(ev, "@type"@)) {
        Some(s) => s,
        None => ""@,
    };
    let chat_id = int_or_zero(at(ev, "chat_id"@));
    if ev_type == "updateNewMessage"@ {
        message_row(at(ev, "message"@))
    } else if ev_type == "updateChatLastMessage"@ {
        let msg_id = int_or_zero(at(at(ev, "last_message"@), "id"@));
        if chat_id != 0 && msg_id != 0 {
            Some(CacheOpView::UpdateChatLastMessage { chat_id, msg_id })
        } else {
            None
        }
    } else if ev_type == "updateChatTitle"@ {
        if chat_id != 0 {
            Some(
                CacheOpView::UpsertChat {
                    chat_id,
                    title: match as_str(at(ev, "title"@)) {
                        Some(t) => t,
                        None => ""@,
                    },
                    kind: "private"@,
                    last_msg_id: None,
                    unread: 0,
                },
            )
        } else {
            None
        }
    } else if ev_type == "updateUnreadMessageCount"@ {
        if chat_id != 0 {
            Some(
                CacheOpView::UpsertChat {
                    chat_id,
                    title: ""@,
                    kind: "private"@,
                    last_msg_id: None,
                    unread: int_or_zero(at(ev, "unread_count"@)) as i32,
                },
            )
        } else {
            None
        }
    } else {
        None
    }
}

pub open spec fn op_view(o: Option<CacheOp>) -> Option<CacheOpView> {
    match o {
        Some(op) => Some(op@),
        None => None,
    }
}

fn int_or_zero_exec(j: Option<&Json>) -> (r: i64)
    ensures
        r == int_or_zero(or_null(opt_view(j))),
{
    match opt_i64(j) {
        Some(n) => n,
        None => 0,
    }
}

fn text_of(msg: Option<&Json>) -> (r: Option<String>)
    ensures
        opt_str_view(
            match r {
                Some(s) => Some(&s),
                None => None,
            },
        ) == message_text(or_null(opt_view(msg))),
{
    let content = at_ref(msg, "content");
    match opt_str(at_ref(at_ref(content, "text"), "text")) {
        Some(t) => Some(t.clone()),
        None => match opt_str(at_ref(at_ref(content, "caption"), "text")) {
            Some(c) => Some(c.clone()),
            None => None,
        },
    }
}

fn message_row_exec(msg: Option<&Json>) -> (r: Option<CacheOp>)
    ensures
        op_view(r) == message_row(or_null(opt_view(msg))),
{
    let msg_id = int_or_zero_exec(at_ref(msg, "id"));
    let chat_id = int_or_zero_exec(at_ref(msg, "chat_id"));
    if chat_id != 0 && msg_id != 0 {
        let sender_id = opt_i64(at_ref(at_ref(msg, "sender_id"), "user_id"));
        let text = text_of(msg);
        let date = int_or_zero_exec(at_ref(msg, "date"));
        let is_outgoing = match opt_bool(at_ref(msg, "is_outgoing")) {
            Some(b) => b,
            None => false,
        };
        let content_type = match msg {
            Some(m) => detect_content_type(m),
            None => content_type_name_exec("messageText"),
        };
        proof {
            assert(msg is Some);
        }
        Some(
            CacheOp::UpsertMessage {
                chat_id,
                msg_id,
                sender_id,
                text,
                date,
                is_outgoing,
                content_type,
            },
        )
    } else {
        None
    }
}

/// The cache write that the cache updater makes for a TDLib update.
pub fn cache_op_for(ev: &Json) -> (r: Option<CacheOp>)
    ensures
        op_view(r) == cache_op_spec(ev@),
{
    let e = Some(ev);
    let ev_type = match opt_str(at_ref(e, "@type")) {
        Some(s) => s.clone(),
        None => owned(""),
    };
    let chat_id = int_or_zero_exec(at_ref(e, "chat_id"));
    if str_eq(ev_type.as_str(), "updateNewMessage") {
        message_row_exec(at_ref(e, "message"))
    } else if str_eq(ev_type.as_str(), "updateChatLastMessage") {
        let msg_id = int_or_zero_exec(at_ref(at_ref(e, "last_message"), "id"));
        if chat_id != 0 && msg_id != 0 {
            Some(CacheOp::UpdateChatLastMessage { chat_id, msg_id })
        } else {
            None
        }
    } else if str_eq(ev_type.as_str(), "updateChatTitle") {
        if chat_id != 0 {
            let title = match opt_str(at_ref(e, "title")) {
                Some(t) => t.clone(),
                None => owned(""),
            };
            Some(
                CacheOp::UpsertChat {
                    chat_id,
                    title,
                    kind: owned("private"),
                    last_msg_id: None,
                    unread: 0,
                },
            )
        } else {
            None
        }
    } else if str_eq(ev_type.as_str(), "updateUnreadMessageCount") {
        if chat_id != 0 {
            let unread = int_or_zero_exec(at_ref(e, "unread_count")) as i32;
            Some(
                CacheOp::UpsertChat {
                    chat_id,
                    title: owned(""),
                    kind: owned("private"),
                    last_msg_id: None,
                    unread,
                },
            )
        } else {
            None
        }
    } else {
        None
    }
}

/// Every content type that the cache records is the name of a `ContentType`.
pub proof fn lemma_content_type_is_model(msg: JsonView)
    ensures
        exists|c: ContentType| content_type_str(c) == #[trigger] content_type_of(msg),
{
    let t = message_content_type(msg);
    if t == "messageText"@ {
        assert(content_type_str(ContentType::Text) == content_type_of(msg));
    } else if t == "messagePhoto"@ {
        assert(content_type_str(ContentType::Photo) == content_type_of(msg));
    } else if t == "messageVideo"@ {
        assert(content_type_str(ContentType::Video) == content_type_of(msg));
    } else if t == "messageDocument"@ {
        assert(content_type_str(ContentType::Document) == content_type_of(msg));
    } else if t == "messageSticker"@ {
        assert(content_type_str(ContentType::Sticker) == content_type_of(msg));
    } else if t == "messageVoiceNote"@ || t == "messageAudio"@ {
        assert(content_type_str(ContentType::Voice) == content_type_of(msg));
    } else {
        assert(content_type_str(ContentType::Other) == content_type_of(msg));
    }
}

// ── Messages recorded by the line daemon ──────────────────────────

/// A message row of the line daemon's cache (its raw JSON is the event's `data.message`).
#[derive(Debug, PartialEq)]
pub struct MessageRecord {
    pub msg_id: i64,
    pub chat_id: i64,
    pub sender_id: Option<i64>,
    pub text: Option<String>,
    pub date: i64,
}

pub open spec fn record_view(r: Option<MessageRecord>) -> Option<(i64, i64, Option<i64>, Option<Seq<char>>, i64)> {
    match r {
        Some(m) => Some(
            (
                m.msg_id,
                m.chat_id,
                m.sender_id,
                match m.text {
                    Some(t) => Some(t@),
                    None => None,
                },
                m.date,
            ),
        ),
        None => None,
    }
}

/// Whether `ev` is the event the line daemon broadcasts for a new message:
/// `{"type": "event", "name": "new_message", ...}`.
pub open spec fn is_new_message_event(ev: JsonView) -> bool {
    as_str(at(ev, "type"@)) == Some("event"@) && as_str(at(ev, "name"@)) == Some("new_message"@)
}

/// The row the line daemon writes for one of its own events, if any:
/// a `new_message` event with `data`, whose message has a chat and an id.
pub open spec fn message_record_spec(ev: JsonView) -> Option<(i64, i64, Option<i64>, Option<Seq<char>>, i64)> {
    if is_new_message_event(ev) {
        match get(ev, "data"@) {
            Some(data) => {
                let msg = at(data, "message"@);
                let msg_id = int_or_zero(at(msg, "id"@));
                let chat_id = int_or_zero(at(msg, "chat_id"@));
                if chat_id != 0 && msg_id != 0 {
                    Some(
                        (
                            msg_id,
                            chat_id,
                            as_i64(at(at(msg, "sender_id"@), "user_id"@)),
                            message_text(msg),
                            int_or_zero(at(msg, "date"@)),
                        ),
                    )
                } else {
                    None
                }
            },
            None => None,
        }
    } else {
        None
    }
}

pub fn message_record_for(ev: &Json) -> (r: Option<MessageRecord>)
    ensures
        record_view(r) == message_record_spec(ev@),
{
    let is_event = match opt_str(at_ref(Some(ev), "type")) {
        Some(s) => str_eq(s.as_str(), "event"),
        None => false,
    };
    let is_new = match opt_str(at_ref(Some(ev), "name")) {
        Some(s) => str_eq(s.as_str(), "new_message"),
        None => false,
    };
    if !(is_event && is_new) {
        return None;
    }
    match ev.get("data") {
        Some(data) => {
            let msg = at_ref(Some(data), "message");
            let msg_id = int_or_zero_exec(at_ref(msg, "id"));
            let chat_id = int_or_zero_exec(at_ref(msg, "chat_id"));
            if chat_id != 0 && msg_id != 0 {
                let sender_id = opt_i64(at_ref(at_ref(msg, "sender_id"), "user_id"));
                let text = text_of(msg);
                let date = int_or_zero_exec(at_ref(msg, "date"));
                Some(MessageRecord { msg_id, chat_id, sender_id, text, date })
            } else {
                None
            }
        },
        None => None,
    }
}

// ── Authorization updates ──────────────────────────────────────────

/// The short name under which an authorization state reaches clients.
pub open spec fn auth_short_name(t: Seq<char>) -> Seq<char> {
    if t == "authorizationStateWaitPhoneNumber"@ {
        "wait_phone"@
    } else if t == "authorizationStateWaitCode"@ {
        "wait_code"@
    } else if t == "authorizationStateWaitPassword"@ {
        "wait_password"@
    } else if t == "authorizationStateReady"@ {
        "ready"@
    } else if t == "authorizationStateClosing"@ {
        "closing"@
    } else if t == "authorizationStateClosed"@ {
        "closed"@
    } else if t == "authorizationStateWaitRegistration"@ {
        "wait_registration"@
    } else if t == "authorizationStateWaitOtherDeviceConfirmation"@ {
        "wait_other_device"@
    } else if t == "authorizationStateLoggingOut"@ {
        "logging_out"@
    } else {
        t
    }
}

pub fn auth_short_name_exec(t: &str) -> (r: String)
    ensures
        r@ == auth_short_name(t@),
{
    if str_eq(t, "authorizationStateWaitPhoneNumber") {
        owned("wait_phone")
    } else if str_eq(t, "authorizationStateWaitCode") {
        owned("wait_code")
    } else if str_eq(t, "authorizationStateWaitPassword") {
        owned("wait_password")
    } else if str_eq(t, "authorizationStateReady") {
        owned("ready")
    } else if str_eq(t, "authorizationStateClosing") {
        owned("closing")
    } else if str_eq(t, "authorizationStateClosed") {
        owned("closed")
    } else if str_eq(t, "authorizationStateWaitRegistration") {
        owned("wait_registration")
    } else if str_eq(t, "authorizationStateWaitOtherDeviceConfirmation") {
        owned("wait_other_device")
    } else if str_eq(t, "authorizationStateLoggingOut") {
        owned("logging_out")
    } else {
        owned(t)
    }
}

/// The `@type` of a TDLib update, `""` where it has none.
pub open spec fn update_type(val: JsonView) -> Seq<char> {
    match as_str(at(val, "@type"@)) {
        Some(s) => s,
        None => ""@,
    }
}

/// The type of the authorization state an update carries, or `d` where it has none.
pub open spec fn auth_state_type(val: JsonView, d: Seq<char>) -> Seq<char> {
    match as_str(at(at(val, "authorization_state"@), "@type"@)) {
        Some(s) => s,
        None => d,
    }
}

/// The event the daemon's receive loop broadcasts for a TDLib update, and
/// whether the update says that the session is now authorized.
pub open spec fn classify_update_spec(val: JsonView) -> (Option<JsonView>, bool) {
    let t = update_type(val);
    if t == "updateAuthorizationState"@ {
        let st = auth_state_type(val, "unknown"@);
        (
            Some(
                JsonView::Object(
                    seq![
                        ("type"@, JsonView::Str("auth_state"@)),
                        ("state"@, JsonView::Str(auth_short_name(st))),
                    ],
                ),
            ),
            st == "authorizationStateReady"@,
        )
    } else if t == "updateNewMessage"@ {
        (
            Some(
                JsonView::Object(
                    seq![
                        ("type"@, JsonView::Str("event"@)),
                        ("name"@, JsonView::Str("new_message"@)),
                        ("data"@, val),
                    ],
                ),
            ),
            false,
        )
    } else {
        (None, false)
    }
}

fn update_type_exec(val: &Json) -> (r: String)
    ensures
        r@ == update_type(val@),
{
    match opt_str(at_ref(Some(val), "@type")) {
        Some(s) => s.clone(),
        None => owned(""),
    }
}

fn auth_state_type_exec(val: &Json, d: &str) -> (r: String)
    ensures
        r@ == auth_state_type(val@, d@),
{
    match opt_str(at_ref(at_ref(Some(val), "authorization_state"), "@type")) {
        Some(s) => s.clone(),
        None => owned(d),
    }
}

/// Turns a TDLib update into the event for clients; the flag is set when
/// the update reports that authorization is complete.
pub fn classify_update(val: Json) -> (r: (Option<Json>, bool))
    ensures
        (
            match r.0 {
                Some(e) => Some(e@),
                None => None,
            },
            r.1,
        ) == classify_update_spec(val@),
{
    let t = update_type_exec(&val);
    if str_eq(t.as_str(), "updateAuthorizationState") {
        let st = auth_state_type_exec(&val, "unknown");
        let ready = str_eq(st.as_str(), "authorizationStateReady");
        let short = auth_short_name_exec(st.as_str());
        (Some(obj2("type", jstr("auth_state"), "state", jstring(short))), ready)
    } else if str_eq(t.as_str(), "updateNewMessage") {
        (Some(obj3("type", jstr("event"), "name", jstr("new_message"), "data", val)), false)
    } else {
        (None, false)
    }
}

/// What the authorization wait does after one update.
#[derive(Debug, PartialEq)]
pub enum AuthStep {
    /// Keep waiting.
    Continue,
    /// Send this query to TDLib, then keep waiting.
    Send(Json),
    /// Stop waiting: `true` when authorized, `false` when TDLib closed.
    Finish(bool),
}

pub enum AuthStepView {
    Continue,
    Send(JsonView),
    Finish(bool),
}

impl View for AuthStep {
    type V = AuthStepView;

    open spec fn view(&self) -> AuthStepView {
        match self {
            AuthStep::Continue => AuthStepView::Continue,
            AuthStep::Send(j) => AuthStepView::Send(j@),
            AuthStep::Finish(b) => AuthStepView::Finish(*b),
        }
    }
}

pub open spec fn encryption_key_query() -> JsonView {
    JsonView::Object(
        seq![
            ("@type"@, JsonView::Str("setDatabaseEncryptionKey"@)),
            ("new_encryption_key"@, JsonView::Str(""@)),
        ],
    )
}

/// The step the authorization wait takes for one update.
pub open spec fn auth_step_spec(update: JsonView) -> AuthStepView {
    if as_str(at(update, "@type"@)) == Some("updateAuthorizationState"@) {
        match auth_state_from(auth_state_type(update, ""@)) {
            AuthStateView::Ready => AuthStepView::Finish(true),
            AuthStateView::WaitEncryptionKey => AuthStepView::Send(encryption_key_query()),
            AuthStateView::Closed => AuthStepView::Finish(false),
            _ => AuthStepView::Continue,
        }
    } else {
        AuthStepView::Continue
    }
}

pub fn encryption_key_request() -> (r: Json)
    ensures
        r@ == encryption_key_query(),
{
    obj2("@type", jstr("setDatabaseEncryptionKey"), "new_encryption_key", jstr(""))
}

/// Decides the next step of the authorization wait for one update.
pub fn auth_step(update: &Json) -> (r: AuthStep)
    ensures
        r@ == auth_step_spec(update@),
{
    let is_auth = match opt_str(at_ref(Some(update), "@type")) {
        Some(s) => str_eq(s.as_str(), "updateAuthorizationState"),
        None => false,
    };
    if !is_auth {
        return AuthStep::Continue;
    }
    let st = auth_state_type_exec(update, "");
    match AuthState::from_tdlib(st.as_str()) {
        AuthState::Ready => AuthStep::Finish(true),
        AuthState::WaitEncryptionKey => AuthStep::Send(encryption_key_request()),
        AuthState::Closed => AuthStep::Finish(false),
        _ => AuthStep::Continue,
    }
}

// ── Events pushed to clients ───────────────────────────────────────

/// The name of an update for clients: its field `name_key`, `"unknown"` where that is not a string.
pub open spec fn event_name(ev: JsonView, name_key: Seq<char>) -> Seq<char> {
    match as_str(at(ev, name_key)) {
        Some(s) => s,
        None => "unknown"@,
    }
}

/// The message the daemon pushes to a client for an update `ev`.
pub open spec fn client_event_spec(ev: JsonView, name_key: Seq<char>) -> JsonView {
    JsonView::Object(
        seq![
            ("type"@, JsonView::Str("event"@)),
            ("name"@, JsonView::Str(event_name(ev, name_key))),
            ("data"@, ev),
        ],
    )
}

pub fn client_event(ev: Json, name_key: &str) -> (r: Json)
    ensures
        r@ == client_event_spec(ev@, name_key@),
{
    let name = match opt_str(at_ref(Some(&ev), name_key)) {
        Some(s) => s.clone(),
        None => owned("unknown"),
    };
    obj3("type", jstr("event"), "name", jstring(name), "data", ev)
}

// ── Routing TDLib responses ────────────────────────────────────────

/// The `@extra` tag of a TDLib response as text: a string as it is, an
/// integer in decimal.
pub open spec fn extra_key_spec(val: JsonView) -> Option<Seq<char>> {
    match get(val, "@extra"@) {
        Some(JsonView::Str(s)) => Some(s),
        Some(JsonView::Int(n)) => Some(decimal(n as int)),
        _ => None,
    }
}

pub fn extra_key(val: &Json) -> (r: Option<String>)
    ensures
        opt_str_view(
            match r {
                Some(s) => Some(&s),
                None => None,
            },
        ) == extra_key_spec(val@),
{
    match val.get("@extra") {
        Some(v) => match v.as_str() {
            Some(s) => Some(s.clone()),
            None => match v.as_i64() {
                Some(n) => Some(i64_to_string(n)),
                None => None,
            },
        },
        None => None,
    }
}

/// `fs` with field `k` set to `v`: the first field named `k` takes the new
/// value in place; where there is none, the field is added at the end.
pub open spec fn set_field(fs: Seq<(Seq<char>, JsonView)>, k: Seq<char>, v: JsonView) -> Seq<
    (Seq<char>, JsonView),
>
    decreases fs.len(),
{
    if fs.len() == 0 {
        seq![(k, v)]
    } else if fs[0].0 == k {
        fs.update(0, (k, v))
    } else {
        seq![fs[0]] + set_field(fs.drop_first(), k, v)
    }
}

proof fn lemma_set_field_at(fs: Seq<(Seq<char>, JsonView)>, k: Seq<char>, v: JsonView, i: int)
    requires
        0 <= i < fs.len(),
        fs[i].0 == k,
        forall|j: int| 0 <= j < i ==> fs[j].0 != k,
    ensures
        set_field(fs, k, v) == fs.update(i, (k, v)),
    decreases fs.len(),
{
    if i > 0 {
        lemma_set_field_at(fs.drop_first(), k, v, i - 1);
        assert(seq![fs[0]] + fs.drop_first().update(i - 1, (k, v)) =~= fs.update(i, (k, v)));
    }
}

proof fn lemma_set_field_absent(fs: Seq<(Seq<char>, JsonView)>, k: Seq<char>, v: JsonView)
    requires
        forall|j: int| 0 <= j < fs.len() ==> fs[j].0 != k,
    ensures
        set_field(fs, k, v) == fs.push((k, v)),
    decreases fs.len(),
{
    if fs.len() > 0 {
        lemma_set_field_absent(fs.drop_first(), k, v);
        assert(seq![fs[0]] + fs.drop_first().push((k, v)) =~= fs.push((k, v)));
    } else {
        assert(seq![(k, v)] =~= fs.push((k, v)));
    }
}

/// Reading a field back after setting it gives the value set.
pub proof fn lemma_set_field_get(fs: Seq<(Seq<char>, JsonView)>, k: Seq<char>, v: JsonView)
    ensures
        find_field(set_field(fs, k, v), k) == Some(v),
    decreases fs.len(),
{
    if fs.len() == 0 {
    } else if fs[0].0 == k {
        assert(fs.update(0, (k, v))[0] == (k, v));
    } else {
        lemma_set_field_get(fs.drop_first(), k, v);
        let s2 = seq![fs[0]] + set_field(fs.drop_first(), k, v);
        assert(s2.drop_first() =~= set_field(fs.drop_first(), k, v));
    }
}

/// `obj[key] = value` on an object (the first field of that name is replaced,
/// or the field is added at the end); `null` becomes `{key: value}`.
pub open spec fn set_key_spec(obj: JsonView, key: Seq<char>, value: JsonView) -> JsonView {
    match obj {
        JsonView::Object(fs) => JsonView::Object(set_field(fs, key, value)),
        _ => JsonView::Object(seq![(key, value)]),
    }
}

/// Sets `obj[key] = value`; `obj` must be an object or `null` (any other
/// value cannot take a field).
pub fn set_key(obj: Json, key: &str, value: Json) -> (r: Json)
    requires
        obj@ is Object || obj@ is Null,
    ensures
        r@ == set_key_spec(obj@, key@, value@),
{
    let ghost kv = key@;
    let ghost vv = value@;
    match obj {
        Json::Object(mut fs) => {
            let ghost old_fs = fs@;
            let ghost gs = fields_view(fs@, fs@.len());
            proof {
                lemma_fields_view(fs@, fs@.len());
                assert(gs =~= pairs_view(fs@));
            }
            let mut i: usize = 0;
            while i < fs.len()
                invariant
                    fs@ == old_fs,
                    gs == pairs_view(old_fs),
                    kv == key@,
                    i <= fs.len(),
                    forall|j: int| 0 <= j < i ==> gs[j].0 != kv,
                ensures
                    fs@ == old_fs,
                    i <= fs.len(),
                    forall|j: int| 0 <= j < i ==> gs[j].0 != kv,
                    i < fs.len() ==> old_fs[i as int].0@ == kv,
                decreases fs.len() - i,
            {
                if str_eq(fs[i].0.as_str(), key) {
                    break;
                }
                i = i + 1;
            }
            let n = fs.len();
            if i < n {
                proof {
                    assert(gs[i as int].0 == kv);
                    lemma_set_field_at(gs, kv, vv, i as int);
                }
                fs.set(i, field(key, value));
                let r = Json::Object(fs);
                proof {
                    lemma_fields_view(fs@, fs@.len());
                    assert(fields_view(fs@, fs@.len()) =~= gs.update(i as int, (kv, vv)));
                }
                r
            } else {
                proof {
                    lemma_set_field_absent(gs, kv, vv);
                }
                fs.push(field(key, value));
                let r = Json::Object(fs);
                proof {
                    lemma_fields_view(fs@, fs@.len());
                    assert(fields_view(fs@, fs@.len()) =~= gs.push((kv, vv)));
                }
                r
            }
        },
        _ => obj1(key, value),
    }
}

/// A TDLib query tagged with `@extra`, so that its response can be matched.
pub open spec fn with_extra_spec(q: JsonView, extra: Seq<char>) -> JsonView {
    set_key_spec(q, "@extra"@, JsonView::Str(extra))
}

/// Sets `query["@extra"]`; `query` must be an object or `null` (any other
/// value cannot take a field).
pub fn with_extra(query: Json, extra: String) -> (r: Json)
    requires
        query@ is Object || query@ is Null,
    ensures
        r@ == with_extra_spec(query@, extra@),
{
    set_key(query, "@extra", Json::Str(extra))
}

/// Where a value TDLib hands out goes.
#[derive(Debug, Clone, Copy, PartialEq, Eq, Structural)]
pub enum Route {
    /// To the caller waiting for the response with this tag.
    ToCaller,
    /// Nowhere: a response whose caller no longer waits (it timed out).
    Discard,
    /// To every subscriber of updates: the value carries no tag.
    Broadcast,
}

/// The route of a value with `@extra` tag `tag` (see `extra_key`), where
/// `waiting` says whether a caller still waits for that tag.
pub open spec fn route_spec(tag: Option<Seq<char>>, waiting: bool) -> Route {
    match tag {
        Some(_) => if waiting {
            Route::ToCaller
        } else {
            Route::Discard
        },
        None => Route::Broadcast,
    }
}

/// Decides where a value from TDLib goes, given its `@extra` tag (from
/// `extra_key`) and whether a caller still waits for that tag.
pub fn route(tag: &Option<String>, waiting: bool) -> (r: Route)
    ensures
        r == route_spec(
            match tag {
                Some(t) => Some(t@),
                None => None,
            },
            waiting,
        ),
{
    match tag {
        Some(_) => if waiting {
            Route::ToCaller
        } else {
            Route::Discard
        },
        None => Route::Broadcast,
    }
}

/// A response that TDLib echoes with the `@extra` of a query reaches the
/// caller that sent the query while it waits; updates, which carry no tag,
/// reach every subscriber.
pub proof fn lemma_responses_reach_their_caller(q: JsonView, extra: Seq<char>, update: JsonView)
    requires
        get(update, "@extra"@) is None,
    ensures
        route_spec(extra_key_spec(with_extra_spec(q, extra)), true) == Route::ToCaller,
        route_spec(extra_key_spec(update), true) == Route::Broadcast,
{
    lemma_extra_routes_back(q, extra);
}

/// A response that TDLib echoes with the `@extra` of a query is routed back
/// to that query: the tag reads back as the text it was set to.
pub proof fn lemma_extra_routes_back(q: JsonView, extra: Seq<char>)
    ensures
        extra_key_spec(with_extra_spec(q, extra)) == Some(extra),
{
    match q {
        JsonView::Object(fs) => {
            lemma_set_field_get(fs, "@extra"@, JsonView::Str(extra));
        },
        _ => {},
    }
}

/// The cache updater writes no row for a chat without an id, and no
/// message row for a message without an id.
pub proof fn lemma_cache_rows_have_ids(ev: JsonView)
    ensures
        cache_op_spec(ev) matches Some(CacheOpView::UpsertMessage { chat_id, msg_id, .. }) ==> chat_id
            != 0 && msg_id != 0,
        cache_op_spec(ev) matches Some(CacheOpView::UpdateChatLastMessage { chat_id, msg_id })
            ==> chat_id != 0 && msg_id != 0,
        cache_op_spec(ev) matches Some(CacheOpView::UpsertChat { chat_id, .. }) ==> chat_id != 0,
{
}

} // verus!
