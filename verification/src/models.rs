//! Business models for the Telegram CLI.

use vstd::prelude::*;
use crate::text::{str_eq, owned};

verus! {

/// Preview of a chat for the sidebar.
#[derive(Debug, Clone)]
pub struct ChatPreview {
    pub id: i64,
    pub title: String,
    pub kind: ChatKind,
    pub last_message_id: Option<i64>,
    pub unread_count: i32,
    pub updated_at: i64,
}

#[derive(Debug, Clone, Copy, PartialEq, Eq, Structural)]
pub enum ChatKind {
    Private,
    Group,
    Supergroup,
    Channel,
    Bot,
}

pub open spec fn chat_kind_name(k: ChatKind) -> Seq<char> {
    match k {
        ChatKind::Private => "private"@,
        ChatKind::Group => "group"@,
        ChatKind::Supergroup => "supergroup"@,
        ChatKind::Channel => "channel"@,
        ChatKind::Bot => "bot"@,
    }
}

impl ChatKind {
    pub fn as_str(&self) -> (r: &'static str)
        ensures
            r@ == chat_kind_name(*self),
    {
        match self {
            ChatKind::Private => "private",
            ChatKind::Group => "group",
            ChatKind::Supergroup => "supergroup",
            ChatKind::Channel => "channel",
            ChatKind::Bot => "bot",
        }
    }
}

/// A message view for display.
#[derive(Debug, Clone)]
pub struct MessageView {
    pub chat_id: i64,
    pub message_id: i64,
    pub sender_id: Option<i64>,
    pub sender_name: String,
    pub text: String,
    pub date: i64,
    pub is_outgoing: bool,
    pub content_type: ContentType,
}

#[derive(Debug, Clone, Copy, PartialEq, Eq, Structural)]
pub enum ContentType {
    Text,
    Photo,
    Video,
    Document,
    Sticker,
    Voice,
    Other,
}

pub open spec fn content_type_str(c: ContentType) -> Seq<char> {
    match c {
        ContentType::Text => "text"@,
        ContentType::Photo => "photo"@,
        ContentType::Video => "video"@,
        ContentType::Document => "document"@,
        ContentType::Sticker => "sticker"@,
        ContentType::Voice => "voice"@,
        ContentType::Other => "other"@,
    }
}

impl ContentType {
    pub fn as_str(&self) -> (r: &'static str)
        ensures
            r@ == content_type_str(*self),
    {
        match self {
            ContentType::Text => "text",
            ContentType::Photo => "photo",
            ContentType::Video => "video",
            ContentType::Document => "document",
            ContentType::Sticker => "sticker",
            ContentType::Voice => "voice",
            ContentType::Other => "other",
        }
    }
}

/// Auth state machine for the login flow.
#[derive(Debug, Clone, PartialEq, Eq)]
pub enum AuthState {
    WaitTdlibParameters,
    WaitEncryptionKey,
    WaitPhoneNumber,
    WaitCode,
    WaitPassword,
    Ready,
    LoggingOut,
    Closed,
    Unknown(String),
}

/// The model of `AuthState`: `Unknown` keeps the text it was made from.
pub enum AuthStateView {
    WaitTdlibParameters,
    WaitEncryptionKey,
    WaitPhoneNumber,
    WaitCode,
    WaitPassword,
    Ready,
    LoggingOut,
    Closed,
    Unknown(Seq<char>),
}

impl View for AuthState {
    type V = AuthStateView;

    open spec fn view(&self) -> AuthStateView {
        match self {
            AuthState::WaitTdlibParameters => AuthStateView::WaitTdlibParameters,
            AuthState::WaitEncryptionKey => AuthStateView::WaitEncryptionKey,
            AuthState::WaitPhoneNumber => AuthStateView::WaitPhoneNumber,
            AuthState::WaitCode => AuthStateView::WaitCode,
            AuthState::WaitPassword => AuthStateView::WaitPassword,
            AuthState::Ready => AuthStateView::Ready,
            AuthState::LoggingOut => AuthStateView::LoggingOut,
            AuthState::Closed => AuthStateView::Closed,
            AuthState::Unknown(s) => AuthStateView::Unknown(s@),
        }
    }
}

/// The state that a TDLib `authorizationState…` type name stands for.
pub open spec fn auth_state_from(t: Seq<char>) -> AuthStateView {
    if t == "authorizationStateWaitTdlibParameters"@ {
        AuthStateView::WaitTdlibParameters
    } else if t == "authorizationStateWaitEncryptionKey"@ {
        AuthStateView::WaitEncryptionKey
    } else if t == "authorizationStateWaitPhoneNumber"@ {
        AuthStateView::WaitPhoneNumber
    } else if t == "authorizationStateWaitCode"@ {
        AuthStateView::WaitCode
    } else if t == "authorizationStateWaitPassword"@ {
        AuthStateView::WaitPassword
    } else if t == "authorizationStateReady"@ {
        AuthStateView::Ready
    } else if t == "authorizationStateLoggingOut"@ {
        AuthStateView::LoggingOut
    } else if t == "authorizationStateClosed"@ {
        AuthStateView::Closed
    } else {
        AuthStateView::Unknown(t)
    }
}

impl AuthState {
    pub fn from_tdlib(state_type: &str) -> (r: Self)
        ensures
            r@ == auth_state_from(state_type@),
    {
        if str_eq(state_type, "authorizationStateWaitTdlibParameters") {
            AuthState::WaitTdlibParameters
        } else if str_eq(state_type, "authorizationStateWaitEncryptionKey") {
            AuthState::WaitEncryptionKey
        } else if str_eq(state_type, "authorizationStateWaitPhoneNumber") {
            AuthState::WaitPhoneNumber
        } else if str_eq(state_type, "authorizationStateWaitCode") {
            AuthState::WaitCode
        } else if str_eq(state_type, "authorizationStateWaitPassword") {
            AuthState::WaitPassword
        } else if str_eq(state_type, "authorizationStateReady") {
            AuthState::Ready
        } else if str_eq(state_type, "authorizationStateLoggingOut") {
            AuthState::LoggingOut
        } else if str_eq(state_type, "authorizationStateClosed") {
            AuthState::Closed
        } else {
            AuthState::Unknown(owned(state_type))
        }
    }
}

/// A download task tracked by the daemon.
#[derive(Debug, Clone)]
pub struct DownloadTask {
    pub id: Option<i64>,
    pub chat_id: i64,
    pub message_id: i64,
    pub file_id: i64,
    pub local_path: Option<String>,
    pub status: DownloadStatus,
    pub created_at: i64,
}

#[derive(Debug, Clone, Copy, PartialEq, Eq, Structural)]
pub enum DownloadStatus {
    Pending,
    Downloading,
    Completed,
    Failed,
}

pub open spec fn download_status_str(s: DownloadStatus) -> Seq<char> {
    match s {
        DownloadStatus::Pending => "pending"@,
        DownloadStatus::Downloading => "downloading"@,
        DownloadStatus::Completed => "completed"@,
        DownloadStatus::Failed => "failed"@,
    }
}

impl DownloadStatus {
    pub fn as_str(&self) -> (r: &'static str)
        ensures
            r@ == download_status_str(*self),
    {
        match self {
            DownloadStatus::Pending => "pending",
            DownloadStatus::Downloading => "downloading",
            DownloadStatus::Completed => "completed",
            DownloadStatus::Failed => "failed",
        }
    }
}

// ── Laws ───────────────────────────────────────────────────────────

/// Different chat kinds have different names.
pub proof fn lemma_chat_kind_names_distinct(a: ChatKind, b: ChatKind)
    ensures
        a != b ==> chat_kind_name(a) != chat_kind_name(b),
{
    reveal_strlit("private");
    assert("private"@.len() == 7 && "private"@[0] == 'p');
    reveal_strlit("group");
    assert("group"@.len() == 5 && "group"@[0] == 'g');
    reveal_strlit("supergroup");
    assert("supergroup"@.len() == 10 && "supergroup"@[0] == 's');
    reveal_strlit("channel");
    assert("channel"@.len() == 7 && "channel"@[0] == 'c');
    reveal_strlit("bot");
    assert("bot"@.len() == 3 && "bot"@[0] == 'b');
}

/// Different content types have different names.
pub proof fn lemma_content_type_names_distinct(a: ContentType, b: ContentType)
    ensures
        a != b ==> content_type_str(a) != content_type_str(b),
{
    reveal_strlit("text");
    assert("text"@.len() == 4 && "text"@[0] == 't' && "text"@[2] == 'x');
    reveal_strlit("photo");
    assert("photo"@.len() == 5 && "photo"@[0] == 'p' && "photo"@[2] == 'o');
    reveal_strlit("video");
    assert("video"@.len() == 5 && "video"@[0] == 'v' && "video"@[2] == 'd');
    reveal_strlit("document");
    assert("document"@.len() == 8 && "document"@[0] == 'd' && "document"@[2] == 'c');
    reveal_strlit("sticker");
    assert("sticker"@.len() == 7 && "sticker"@[0] == 's' && "sticker"@[2] == 'i');
    reveal_strlit("voice");
    assert("voice"@.len() == 5 && "voice"@[0] == 'v' && "voice"@[2] == 'i');
    reveal_strlit("other");
    assert("other"@.len() == 5 && "other"@[0] == 'o' && "other"@[2] == 'h');
}

/// Different download statuses have different names.
pub proof fn lemma_download_status_names_distinct(a: DownloadStatus, b: DownloadStatus)
    ensures
        a != b ==> download_status_str(a) != download_status_str(b),
{
    reveal_strlit("pending");
    assert("pending"@.len() == 7 && "pending"@[0] == 'p');
    reveal_strlit("downloading");
    assert("downloading"@.len() == 11 && "downloading"@[0] == 'd');
    reveal_strlit("completed");
    assert("completed"@.len() == 9 && "completed"@[0] == 'c');
    reveal_strlit("failed");
    assert("failed"@.len() == 6 && "failed"@[0] == 'f');
}

/// Every name that TDLib gives a state is recognised; any other text is
/// kept, unchanged, as an unknown state.
pub proof fn lemma_auth_state_unknown_keeps_text(t: Seq<char>)
    ensures
        auth_state_from(t) matches AuthStateView::Unknown(u) ==> u == t,
        auth_state_from("authorizationStateReady"@) == AuthStateView::Ready,
        auth_state_from("authorizationStateClosed"@) == AuthStateView::Closed,
{
    reveal_strlit("authorizationStateWaitTdlibParameters");
    assert("authorizationStateWaitTdlibParameters"@.len() == 37);
    reveal_strlit("authorizationStateWaitEncryptionKey");
    assert("authorizationStateWaitEncryptionKey"@.len() == 35);
    reveal_strlit("authorizationStateWaitPhoneNumber");
    assert("authorizationStateWaitPhoneNumber"@.len() == 33);
    reveal_strlit("authorizationStateWaitCode");
    assert("authorizationStateWaitCode"@.len() == 26);
    reveal_strlit("authorizationStateWaitPassword");
    assert("authorizationStateWaitPassword"@.len() == 30);
    reveal_strlit("authorizationStateReady");
    assert("authorizationStateReady"@.len() == 23);
    reveal_strlit("authorizationStateLoggingOut");
    assert("authorizationStateLoggingOut"@.len() == 28);
    reveal_strlit("authorizationStateClosed");
    assert("authorizationStateClosed"@.len() == 24);
}

} // verus!
