//! Rows of the SQLite caches and the JSON they are answered with. The
//! database itself is driven by the daemon's runtime.

use vstd::prelude::*;
use crate::json::{Json, JsonView};
use crate::protocol::{field, object, pairs_view};
use crate::models::{DownloadStatus, download_status_str};
use crate::text::owned;

verus! {

/// A chat row of the daemon's cache.
#[derive(Debug, PartialEq)]
pub struct JsonChat {
    pub id: i64,
    pub title: String,
    pub kind: String,
    pub last_message_id: Option<i64>,
    pub unread_count: i32,
    pub updated_at: i64,
}

/// A message row of the daemon's cache.
#[derive(Debug, PartialEq)]
pub struct JsonMessage {
    pub chat_id: i64,
    pub message_id: i64,
    pub sender_id: Option<i64>,
    pub text: Option<String>,
    pub date: i64,
    pub is_outgoing: bool,
    pub content_type: String,
}

/// The row `add_download` writes for a new download.
#[derive(Debug, PartialEq)]
pub struct NewDownload {
    pub chat_id: i64,
    pub message_id: i64,
    pub file_id: i64,
    pub status: String,
    pub created_at: i64,
}

/// The row for a download of `file_id` (of message `message_id` in
/// `chat_id`) asked for at time `now`: every new download starts pending.
pub fn new_download(chat_id: i64, message_id: i64, file_id: i64, now: i64) -> (r: NewDownload)
    ensures
        r.chat_id == chat_id,
        r.message_id == message_id,
        r.file_id == file_id,
        r.status@ == download_status_str(DownloadStatus::Pending),
        r.created_at == now,
{
    NewDownload {
        chat_id,
        message_id,
        file_id,
        status: owned(DownloadStatus::Pending.as_str()),
        created_at: now,
    }
}

/// A message row of the line daemon's cache.
#[derive(Debug, PartialEq)]
pub struct CachedMessage {
    pub id: i64,
    pub chat_id: i64,
    pub sender_id: Option<i64>,
    pub text: Option<String>,
    pub date: i64,
}

/// A dialog row of the line daemon's cache.
#[derive(Debug, PartialEq)]
pub struct CachedDialog {
    pub chat_id: i64,
    pub title: String,
    pub last_msg_id: Option<i64>,
    pub unread_count: i32,
}

pub open spec fn opt_int(o: Option<i64>) -> JsonView {
    match o {
        Some(n) => JsonView::Int(n),
        None => JsonView::Null,
    }
}

pub open spec fn opt_text(o: Option<String>) -> JsonView {
    match o {
        Some(s) => JsonView::Str(s@),
        None => JsonView::Null,
    }
}

fn opt_int_json(o: Option<i64>) -> (r: Json)
    ensures
        r@ == opt_int(o),
{
    match o {
        Some(n) => Json::Int(n),
        None => Json::Null,
    }
}

fn opt_text_json(o: &Option<String>) -> (r: Json)
    ensures
        r@ == opt_text(*o),
{
    match o {
        Some(s) => Json::Str(s.clone()),
        None => Json::Null,
    }
}

pub open spec fn chat_json(c: JsonChat) -> JsonView {
    JsonView::Object(
        seq![
            ("id"@, JsonView::Int(c.id)),
            ("title"@, JsonView::Str(c.title@)),
            ("kind"@, JsonView::Str(c.kind@)),
            ("last_message_id"@, opt_int(c.last_message_id)),
            ("unread_count"@, JsonView::Int(c.unread_count as i64)),
            ("updated_at"@, JsonView::Int(c.updated_at)),
        ],
    )
}

pub open spec fn message_json(m: JsonMessage) -> JsonView {
    JsonView::Object(
        seq![
            ("chat_id"@, JsonView::Int(m.chat_id)),
            ("message_id"@, JsonView::Int(m.message_id)),
            ("sender_id"@, opt_int(m.sender_id)),
            ("text"@, opt_text(m.text)),
            ("date"@, JsonView::Int(m.date)),
            ("is_outgoing"@, JsonView::Bool(m.is_outgoing)),
            ("content_type"@, JsonView::Str(m.content_type@)),
        ],
    )
}

impl JsonChat {
    /// The row as the daemon answers with it.
    pub fn to_json(&self) -> (r: Json)
        ensures
            r@ == chat_json(*self),
    {
        let fs = vec![
            field("id", Json::Int(self.id)),
            field("title", Json::Str(self.title.clone())),
            field("kind", Json::Str(self.kind.clone())),
            field("last_message_id", opt_int_json(self.last_message_id)),
            field("unread_count", Json::Int(self.unread_count as i64)),
            field("updated_at", Json::Int(self.updated_at)),
        ];
        proof {
            assert(pairs_view(fs@) =~= seq![
                ("id"@, JsonView::Int(self.id)),
                ("title"@, JsonView::Str(self.title@)),
                ("kind"@, JsonView::Str(self.kind@)),
                ("last_message_id"@, opt_int(self.last_message_id)),
                ("unread_count"@, JsonView::Int(self.unread_count as i64)),
                ("updated_at"@, JsonView::Int(self.updated_at)),
            ]);
        }
        object(fs)
    }
}

impl JsonMessage {
    /// The row as the daemon answers with it.
    pub fn to_json(&self) -> (r: Json)
        ensures
            r@ == message_json(*self),
    {
        let fs = vec![
            field("chat_id", Json::Int(self.chat_id)),
            field("message_id", Json::Int(self.message_id)),
            field("sender_id", opt_int_json(self.sender_id)),
            field("text", opt_text_json(&self.text)),
            field("date", Json::Int(self.date)),
            field("is_outgoing", Json::Bool(self.is_outgoing)),
            field("content_type", Json::Str(self.content_type.clone())),
        ];
        proof {
            assert(pairs_view(fs@) =~= seq![
                ("chat_id"@, JsonView::Int(self.chat_id)),
                ("message_id"@, JsonView::Int(self.message_id)),
                ("sender_id"@, opt_int(self.sender_id)),
                ("text"@, opt_text(self.text)),
                ("date"@, JsonView::Int(self.date)),
                ("is_outgoing"@, JsonView::Bool(self.is_outgoing)),
                ("content_type"@, JsonView::Str(self.content_type@)),
            ]);
        }
        object(fs)
    }
}

/// Rows answer a request only when there are some; otherwise TDLib is asked.
pub fn cache_answers(rows: usize) -> (r: bool)
    ensures
        r == (rows > 0),
{
    rows > 0
}

} // verus!
