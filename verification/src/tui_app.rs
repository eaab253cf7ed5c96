//! The state machine behind the standalone `tg-tui` program: a chat list,
//! a messages pane, and an input line with a cursor. The cursor is a byte
//! position in the input, as `String::insert` and `String::remove` take it.

use vstd::prelude::*;
use vstd::utf8::{
    encode_utf8, decode_utf8, is_char_boundary, length_of_first_scalar, valid_utf8, valid_first_scalar,
    pop_first_scalar, is_continuation_byte,
};
use crate::json::{Json, JsonView, at, get, as_i64, as_str, items_view, lemma_items_view, at_ref, opt_i64, opt_str};
use crate::display::{MAX_TIMESTAMP, clock_text, fmt_time, user_label, user_label_exec};
use crate::protocol::{obj1, obj2, jstring, GET_MESSAGES, SEND_MESSAGE, SEARCH, MARK_READ, ServerMessage, ServerMessageView};
use crate::text::{owned, concat, decimal, i64_to_string, usize_to_string, str_eq};
use crate::tui::{
    Focus, Key, KeyPress, Outgoing, outgoing_view, ChatRow, PaneLine, Screen, ScreenView, chat_label,
    chat_label_exec,
};
use crate::events::int_or_zero;

verus! {

broadcast use vstd::utf8::encode_utf8_decode_utf8;

// ── Byte-position editing of a string ──────────────────────────────

/// The UTF-8 bytes of a text.
pub open spec fn bytes_of(s: Seq<char>) -> Seq<u8> {
    encode_utf8(s)
}

/// `String::insert`: puts `c` at byte position `idx`, which must be a
/// character boundary no further than the end (else it panics).
#[verifier::external_body]
fn string_insert(s: &mut String, idx: usize, c: char)
    requires
        idx <= bytes_of(old(s)@).len(),
        is_char_boundary(bytes_of(old(s)@), idx as int),
    ensures
        bytes_of(final(s)@) == bytes_of(old(s)@).take(idx as int) + encode_utf8(seq![c])
            + bytes_of(old(s)@).skip(idx as int),
{
    s.insert(idx, c)
}

/// `String::remove`: takes out the character that starts at byte position
/// `idx`, which must be a character boundary before the end (else it panics).
#[verifier::external_body]
fn string_remove(s: &mut String, idx: usize) -> (r: char)
    requires
        idx < bytes_of(old(s)@).len(),
        is_char_boundary(bytes_of(old(s)@), idx as int),
    ensures
        bytes_of(final(s)@) == bytes_of(old(s)@).take(idx as int) + bytes_of(old(s)@).skip(
            idx + length_of_first_scalar(bytes_of(old(s)@).skip(idx as int)),
        ),
        encode_utf8(seq![r]) == bytes_of(old(s)@).subrange(
            idx as int,
            idx + length_of_first_scalar(bytes_of(old(s)@).skip(idx as int)),
        ),
{
    s.remove(idx)
}

/// The text after inserting `c` at byte position `cur`.
pub open spec fn insert_at(s: Seq<char>, cur: int, c: char) -> Seq<char> {
    decode_utf8(bytes_of(s).take(cur) + encode_utf8(seq![c]) + bytes_of(s).skip(cur))
}

/// The text after removing the character at byte position `cur`.
pub open spec fn remove_at(s: Seq<char>, cur: int) -> Seq<char> {
    decode_utf8(
        bytes_of(s).take(cur) + bytes_of(s).skip(cur + length_of_first_scalar(bytes_of(s).skip(cur))),
    )
}

// ── Application state ──────────────────────────────────────────────

#[derive(Debug, PartialEq)]
pub struct DialogItem {
    pub id: i64,
    pub title: String,
    pub unread: i32,
}

#[derive(Debug, PartialEq)]
pub struct ChatMessage {
    pub id: i64,
    pub sender: String,
    pub text: String,
    pub time: String,
}

#[derive(Debug, PartialEq)]
pub struct App {
    pub dialogs: Vec<DialogItem>,
    pub selected: usize,
    pub messages: Vec<ChatMessage>,
    pub input: String,
    pub input_cursor: usize,
    pub focus: Focus,
    pub status: String,
    pub running: bool,
}

pub struct AppView {
    /// (chat id, title, unread count)
    pub dialogs: Seq<(i64, Seq<char>, i32)>,
    pub selected: usize,
    /// (message id, sender, text, time)
    pub messages: Seq<(i64, Seq<char>, Seq<char>, Seq<char>)>,
    pub input: Seq<char>,
    pub cursor: usize,
    pub focus: Focus,
    pub status: Seq<char>,
    pub running: bool,
}

impl View for App {
    type V = AppView;

    open spec fn view(&self) -> AppView {
        AppView {
            dialogs: Seq::new(
                self.dialogs@.len(),
                |i: int| (self.dialogs@[i].id, self.dialogs@[i].title@, self.dialogs@[i].unread),
            ),
            selected: self.selected,
            messages: Seq::new(
                self.messages@.len(),
                |i: int|
                    (
                        self.messages@[i].id,
                        self.messages@[i].sender@,
                        self.messages@[i].text@,
                        self.messages@[i].time@,
                    ),
            ),
            input: self.input@,
            cursor: self.input_cursor,
            focus: self.focus,
            status: self.status@,
            running: self.running,
        }
    }
}

pub open spec fn current_chat_id_spec(a: AppView) -> Option<i64> {
    if a.selected < a.dialogs.len() {
        Some(a.dialogs[a.selected as int].0)
    } else {
        None
    }
}

impl App {
    pub fn new() -> (r: Self)
        ensures
            r@.dialogs.len() == 0,
            r@.selected == 0,
            r@.messages.len() == 0,
            r@.input.len() == 0,
            r@.cursor == 0,
            r@.focus == Focus::Dialogs,
            r@.status == "Starting…"@,
            r@.running,
    {
        App {
            dialogs: Vec::new(),
            selected: 0,
            messages: Vec::new(),
            input: String::new(),
            input_cursor: 0,
            focus: Focus::Dialogs,
            status: owned("Starting…"),
            running: true,
        }
    }

    pub fn current_chat_id(&self) -> (r: Option<i64>)
        ensures
            r == current_chat_id_spec(self@),
    {
        if self.selected < self.dialogs.len() {
            Some(self.dialogs[self.selected].id)
        } else {
            None
        }
    }
}

// ── Commands typed in the input line ───────────────────────────────

/// `s.splitn(2, ' ')`: the text before the first space, and the rest after it if there is a space.
pub open spec fn split_first_space(s: Seq<char>) -> (Seq<char>, Option<Seq<char>>)
    decreases s.len(),
{
    if s.len() == 0 {
        (s, None)
    } else if s[0] == ' ' {
        (Seq::empty(), Some(s.drop_first()))
    } else {
        let (h, t) = split_first_space(s.drop_first());
        (seq![s[0]] + h, t)
    }
}

proof fn lemma_split_at(s: Seq<char>, i: int)
    requires
        0 <= i <= s.len(),
        forall|k: int| 0 <= k < i ==> s[k] != ' ',
        i == s.len() || s[i] == ' ',
    ensures
        split_first_space(s) == (if i == s.len() {
            (s, None::<Seq<char>>)
        } else {
            (s.take(i), Some(s.skip(i + 1)))
        }),
    decreases i,
{
    if i > 0 {
        lemma_split_at(s.drop_first(), i - 1);
        if i == s.len() {
            assert(seq![s[0]] + s.drop_first() =~= s);
        } else {
            assert(seq![s[0]] + s.drop_first().take(i - 1) =~= s.take(i));
            assert(s.drop_first().skip(i) =~= s.skip(i + 1));
        }
    } else if s.len() > 0 {
        assert(s.drop_first() =~= s.skip(1));
        assert(s.take(0) =~= Seq::<char>::empty());
    }
}

fn split_first_space_exec(s: &str) -> (r: (String, Option<String>))
    ensures
        (r.0@, match r.1 {
            Some(t) => Some(t@),
            None => None,
        }) == split_first_space(s@),
{
    let n = s.unicode_len();
    let mut i: usize = 0;
    while i < n
        invariant
            n == s@.len(),
            i <= n,
            forall|k: int| 0 <= k < i ==> s@[k] != ' ',
        ensures
            i <= n,
            forall|k: int| 0 <= k < i ==> s@[k] != ' ',
            i == n || s@[i as int] == ' ',
        decreases n - i,
    {
        if s.get_char(i) == ' ' {
            break;
        }
        i = i + 1;
    }
    proof {
        lemma_split_at(s@, i as int);
    }
    if i == n {
        (owned(s), None)
    } else {
        let h = owned(s.substring_char(0, i));
        let t = owned(s.substring_char(i + 1, n));
        assert(s@.subrange(0, i as int) =~= s@.take(i as int));
        assert(s@.subrange(i + 1, n as int) =~= s@.skip(i + 1));
        (h, Some(t))
    }
}

/// The state after a `/command` typed in the input line, and the request it sends.
pub open spec fn command_spec(a: AppView, cmd: Seq<char>) -> (AppView, Option<(Seq<char>, JsonView)>) {
    let (head, rest) = split_first_space(cmd);
    if head == "/q"@ {
        (AppView { running: false, ..a }, None)
    } else if head == "/search"@ {
        match current_chat_id_spec(a) {
            Some(c) => {
                let query = match rest {
                    Some(q) => q,
                    None => ""@,
                };
                (
                    AppView { status: "Searching for: "@ + query, ..a },
                    Some(
                        (
                            SEARCH@,
                            JsonView::Object(
                                seq![("chat_id"@, JsonView::Int(c)), ("query"@, JsonView::Str(query))],
                            ),
                        ),
                    ),
                )
            },
            None => (a, None),
        }
    } else if head == "/read"@ {
        match current_chat_id_spec(a) {
            Some(c) => (
                AppView { status: "Marked as read"@, ..a },
                Some((MARK_READ@, JsonView::Object(seq![("chat_id"@, JsonView::Int(c))]))),
            ),
            None => (a, None),
        }
    } else {
        (AppView { status: "Unknown command: "@ + head, ..a }, None)
    }
}

/// Runs a `/command` typed in the input line.
pub fn handle_command(cmd: &str, app: &mut App) -> (r: Option<Outgoing>)
    ensures
        (final(app)@, outgoing_view(r)) == command_spec(old(app)@, cmd@),
{
    let (head, rest) = split_first_space_exec(cmd);
    if str_eq(head.as_str(), "/q") {
        app.running = false;
        None
    } else if str_eq(head.as_str(), "/search") {
        match app.current_chat_id() {
            Some(chat_id) => {
                let query = match rest {
                    Some(q) => q,
                    None => owned(""),
                };
                let req = Outgoing {
                    method: owned(SEARCH),
                    params: obj2("chat_id", Json::Int(chat_id), "query", jstring(query.clone())),
                };
                app.status = concat(owned("Searching for: "), query.as_str());
                Some(req)
            },
            None => None,
        }
    } else if str_eq(head.as_str(), "/read") {
        match app.current_chat_id() {
            Some(chat_id) => {
                app.status = owned("Marked as read");
                Some(Outgoing { method: owned(MARK_READ), params: obj1("chat_id", Json::Int(chat_id)) })
            },
            None => None,
        }
    } else {
        app.status = concat(owned("Unknown command: "), head.as_str());
        None
    }
}

/// The state after asking for the messages of the chat under the cursor, and the request.
pub open spec fn load_messages_spec(a: AppView) -> (AppView, Option<(Seq<char>, JsonView)>) {
    match current_chat_id_spec(a) {
        Some(c) => (
            AppView { status: "Loading messages for chat "@ + decimal(c as int) + "…"@, ..a },
            Some(
                (
                    GET_MESSAGES@,
                    JsonView::Object(seq![("chat_id"@, JsonView::Int(c)), ("limit"@, JsonView::Int(50))]),
                ),
            ),
        ),
        None => (a, None),
    }
}

pub fn load_messages(app: &mut App) -> (r: Option<Outgoing>)
    ensures
        (final(app)@, outgoing_view(r)) == load_messages_spec(old(app)@),
{
    match app.current_chat_id() {
        Some(chat_id) => {
            let req = Outgoing {
                method: owned(GET_MESSAGES),
                params: obj2("chat_id", Json::Int(chat_id), "limit", Json::Int(50)),
            };
            let s = concat(owned("Loading messages for chat "), i64_to_string(chat_id).as_str());
            app.status = concat(s, "…");
            Some(req)
        },
        None => None,
    }
}

// ── Keys ───────────────────────────────────────────────────────────

pub open spec fn byte_len(s: Seq<char>) -> int {
    bytes_of(s).len() as int
}

/// A key press that the program handles without panicking: edits happen at
/// character boundaries of the input (whose length in bytes fits a `usize`).
pub open spec fn key_ok(a: AppView, k: KeyPress) -> bool {
    a.focus == Focus::Input ==> byte_len(a.input) <= usize::MAX && match k.key {
        Key::Backspace => a.cursor > 0 ==> (a.cursor - 1 < byte_len(a.input) && is_char_boundary(
            bytes_of(a.input),
            a.cursor - 1,
        )),
        Key::Delete => a.cursor < byte_len(a.input) ==> is_char_boundary(
            bytes_of(a.input),
            a.cursor as int,
        ),
        Key::Char(_) => k.plain ==> (a.cursor <= byte_len(a.input) && is_char_boundary(
            bytes_of(a.input),
            a.cursor as int,
        ) && a.cursor < usize::MAX),
        _ => true,
    }
}

pub open spec fn dialogs_key_spec(a: AppView, key: Key) -> (AppView, Option<(Seq<char>, JsonView)>) {
    match key {
        Key::Char('q') | Key::Esc => (AppView { running: false, ..a }, None),
        Key::Char('i') | Key::Enter => (AppView { focus: Focus::Input, ..a }, None),
        Key::Char('j') | Key::Down => {
            if a.selected < crate::tui::sat_dec(a.dialogs.len()) {
                load_messages_spec(AppView { selected: (a.selected + 1) as usize, ..a })
            } else {
                (a, None)
            }
        },
        Key::Char('k') | Key::Up => {
            if a.selected > 0 {
                load_messages_spec(AppView { selected: (a.selected - 1) as usize, ..a })
            } else {
                (a, None)
            }
        },
        Key::Char('/') => (AppView { focus: Focus::Input, input: "/"@, cursor: 1, ..a }, None),
        _ => (a, None),
    }
}

pub open spec fn input_key_spec(a: AppView, key: Key, plain: bool) -> (AppView, Option<(Seq<char>, JsonView)>) {
    match key {
        Key::Esc => (AppView { input: Seq::empty(), cursor: 0, focus: Focus::Dialogs, ..a }, None),
        Key::Enter => {
            let text = a.input;
            let b = AppView { input: Seq::empty(), cursor: 0, ..a };
            if text.len() == 0 {
                (b, None)
            } else if text[0] == '/' {
                command_spec(b, text)
            } else {
                match current_chat_id_spec(b) {
                    Some(c) => (
                        b,
                        Some(
                            (
                                SEND_MESSAGE@,
                                JsonView::Object(
                                    seq![("chat_id"@, JsonView::Int(c)), ("text"@, JsonView::Str(text))],
                                ),
                            ),
                        ),
                    ),
                    None => (b, None),
                }
            }
        },
        Key::Backspace => if a.cursor > 0 {
            (
                AppView {
                    cursor: (a.cursor - 1) as usize,
                    input: remove_at(a.input, a.cursor - 1),
                    ..a
                },
                None,
            )
        } else {
            (a, None)
        },
        Key::Delete => if a.cursor < byte_len(a.input) {
            (AppView { input: remove_at(a.input, a.cursor as int), ..a }, None)
        } else {
            (a, None)
        },
        Key::Left => (
            AppView {
                cursor: if a.cursor > 0 {
                    (a.cursor - 1) as usize
                } else {
                    0
                },
                ..a
            },
            None,
        ),
        Key::Right => if a.cursor < byte_len(a.input) {
            (AppView { cursor: (a.cursor + 1) as usize, ..a }, None)
        } else {
            (a, None)
        },
        Key::Char(c) => if plain {
            (
                AppView {
                    input: insert_at(a.input, a.cursor as int, c),
                    cursor: (a.cursor + 1) as usize,
                    ..a
                },
                None,
            )
        } else {
            (a, None)
        },
        _ => (a, None),
    }
}

pub open spec fn handle_key_spec(a: AppView, k: KeyPress) -> (AppView, Option<(Seq<char>, JsonView)>) {
    match a.focus {
        Focus::Dialogs => dialogs_key_spec(a, k.key),
        Focus::Input => input_key_spec(a, k.key, k.plain),
    }
}

fn input_byte_len(s: &String) -> (r: usize)
    requires
        byte_len(s@) <= usize::MAX,
    ensures
        r == byte_len(s@),
{
    s.as_str().len()
}

/// Whether byte position `i` of `s` starts a character or is its end.
fn boundary_at(s: &String, i: usize) -> (r: bool)
    ensures
        r == (i <= byte_len(s@) && is_char_boundary(bytes_of(s@), i as int)),
{
    proof {
        vstd::utf8::encode_utf8_valid_utf8(s@);
    }
    s.as_str().is_char_boundary(i)
}

/// Whether `handle_key` can take this key press in this state.
pub fn key_ok_exec(app: &App, key: KeyPress) -> (r: bool)
    ensures
        r == key_ok(app@, key),
{
    match app.focus {
        Focus::Dialogs => true,
        Focus::Input => {
            let n = app.input.as_str().as_bytes().len();
            let cur = app.input_cursor;
            match key.key {
                Key::Backspace => cur == 0 || (cur - 1 < n && boundary_at(&app.input, cur - 1)),
                Key::Delete => !(cur < n) || boundary_at(&app.input, cur),
                Key::Char(_) => !key.plain || (cur <= n && boundary_at(&app.input, cur) && cur
                    < usize::MAX),
                _ => true,
            }
        },
    }
}

/// Applies a key press; returns the request it sends, if any.
pub fn handle_key(app: &mut App, key: KeyPress) -> (r: Option<Outgoing>)
    requires
        key_ok(old(app)@, key),
    ensures
        (final(app)@, outgoing_view(r)) == handle_key_spec(old(app)@, key),
{
    match app.focus {
        Focus::Dialogs => match key.key {
            Key::Char('q') | Key::Esc => {
                app.running = false;
                None
            },
            Key::Char('i') | Key::Enter => {
                app.focus = Focus::Input;
                None
            },
            Key::Char('j') | Key::Down => {
                let last = if app.dialogs.len() == 0 {
                    0
                } else {
                    app.dialogs.len() - 1
                };
                if app.selected < last {
                    app.selected = app.selected + 1;
                    load_messages(app)
                } else {
                    None
                }
            },
            Key::Char('k') | Key::Up => {
                if app.selected > 0 {
                    app.selected = app.selected - 1;
                    load_messages(app)
                } else {
                    None
                }
            },
            Key::Char('/') => {
                app.focus = Focus::Input;
                app.input = owned("/");
                app.input_cursor = 1;
                None
            },
            _ => None,
        },
        Focus::Input => match key.key {
            Key::Esc => {
                app.input = String::new();
                app.input_cursor = 0;
                app.focus = Focus::Dialogs;
                None
            },
            Key::Enter => {
                let mut text = String::new();
                core::mem::swap(&mut text, &mut app.input);
                app.input_cursor = 0;
                if text.unicode_len() == 0 {
                    None
                } else if text.as_str().get_char(0) == '/' {
                    handle_command(text.as_str(), app)
                } else {
                    match app.current_chat_id() {
                        Some(chat_id) => Some(
                            Outgoing {
                                method: owned(SEND_MESSAGE),
                                params: obj2("chat_id", Json::Int(chat_id), "text", jstring(text)),
                            },
                        ),
                        None => None,
                    }
                }
            },
            Key::Backspace => {
                if app.input_cursor > 0 {
                    app.input_cursor = app.input_cursor - 1;
                    string_remove(&mut app.input, app.input_cursor);
                }
                None
            },
            Key::Delete => {
                if app.input_cursor < input_byte_len(&app.input) {
                    string_remove(&mut app.input, app.input_cursor);
                }
                None
            },
            Key::Left => {
                app.input_cursor = if app.input_cursor > 0 {
                    app.input_cursor - 1
                } else {
                    0
                };
                None
            },
            Key::Right => {
                if app.input_cursor < input_byte_len(&app.input) {
                    app.input_cursor = app.input_cursor + 1;
                }
                None
            },
            Key::Char(c) => {
                if key.plain {
                    string_insert(&mut app.input, app.input_cursor, c);
                    app.input_cursor = app.input_cursor + 1;
                }
                None
            },
            _ => None,
        },
    }
}

// ── Server messages ────────────────────────────────────────────────

/// The chat-list entry for one cached dialog row.
pub open spec fn dialog_item(item: JsonView) -> (i64, Seq<char>, i32) {
    let id = int_or_zero(at(item, "chat_id"@));
    (
        id,
        match as_str(at(item, "title"@)) {
            Some(t) => t,
            None => "Chat #"@ + decimal(id as int),
        },
        int_or_zero(at(item, "unread_count"@)) as i32,
    )
}

/// The messages of a response, if it lists messages: cached rows (a
/// non-empty array whose first item has no `title`), or TDLib's
/// `{"messages": [...]}`. Any other array lists chats (an empty one, none).
pub open spec fn message_list(result: JsonView) -> Option<Seq<JsonView>> {
    match result {
        JsonView::Array(arr) => if arr.len() == 0 || get(arr[0], "title"@) is Some {
            None
        } else {
            Some(arr)
        },
        _ => match get(result, "messages"@) {
            Some(JsonView::Array(ms)) => Some(ms),
            _ => None,
        },
    }
}

/// A message's id: `id` (TDLib and the line daemon's cache), else `message_id`.
pub open spec fn message_id_of(m: JsonView) -> i64 {
    match as_i64(at(m, "id"@)) {
        Some(n) => n,
        None => int_or_zero(at(m, "message_id"@)),
    }
}

/// A message's sender: `sender_id` as a number (cached rows), else its `user_id` (TDLib).
pub open spec fn message_sender_of(m: JsonView) -> i64 {
    match as_i64(at(m, "sender_id"@)) {
        Some(n) => n,
        None => int_or_zero(at(at(m, "sender_id"@), "user_id"@)),
    }
}

/// A message's text: `text` (cached rows), else its text content (TDLib), else `[media]`.
pub open spec fn message_body_of(m: JsonView) -> Seq<char> {
    match as_str(at(m, "text"@)) {
        Some(t) => t,
        None => match as_str(at(at(at(m, "content"@), "text"@), "text"@)) {
            Some(t) => t,
            None => "[media]"@,
        },
    }
}

/// A message's date, 0 where it has none.
pub open spec fn message_date_of(m: JsonView) -> i64 {
    int_or_zero(at(m, "date"@))
}

/// The messages-pane entry for one message: (id, `user#<sender>`, text, `HH:MM`).
pub open spec fn chat_message(m: JsonView) -> (i64, Seq<char>, Seq<char>, Seq<char>) {
    (
        message_id_of(m),
        user_label(message_sender_of(m)),
        message_body_of(m),
        clock_text(message_date_of(m) as int),
    )
}

/// A message whose time can be shown (the clock conversion panics outside this range).
pub open spec fn message_time_ok(m: JsonView) -> bool {
    0 <= message_date_of(m) <= MAX_TIMESTAMP
}

/// A server message that can be applied without panicking: every message
/// it lists has a time that can be shown.
pub open spec fn server_message_ok(m: ServerMessageView) -> bool {
    match m {
        ServerMessageView::Response { result: Some(r), error: None, .. } => result_times_ok(r),
        _ => true,
    }
}

/// Every message a result lists has a time that can be shown.
pub open spec fn result_times_ok(r: JsonView) -> bool {
    match message_list(r) {
        Some(ms) => forall|k: int| 0 <= k < ms.len() ==> #[trigger] message_time_ok(ms[k]),
        None => true,
    }
}

pub open spec fn handle_server_message_spec(a: AppView, m: ServerMessageView) -> AppView {
    match m {
        ServerMessageView::Response { result, error, .. } => match error {
            Some((_, msg)) => AppView { status: "❌  "@ + msg, ..a },
            None => match result {
                Some(r) => match message_list(r) {
                    Some(ms) => AppView {
                        messages: Seq::new(ms.len(), |k: int| chat_message(ms[k])),
                        ..a
                    },
                    None => match r {
                        JsonView::Array(arr) => AppView {
                            dialogs: Seq::new(arr.len(), |k: int| dialog_item(arr[k])),
                            status: decimal(arr.len() as int) + " dialogs loaded"@,
                            ..a
                        },
                        _ => a,
                    },
                },
                None => a,
            },
        },
        ServerMessageView::Event { name, .. } => if name == "new_message"@ {
            AppView { status: "📨  New message"@, ..a }
        } else {
            a
        },
        ServerMessageView::AuthState { state, .. } => AppView { status: "🔐  Auth: "@ + state, ..a },
    }
}

fn dialog_item_exec(item: &Json) -> (r: DialogItem)
    ensures
        (r.id, r.title@, r.unread) == dialog_item(item@),
{
    let it = Some(item);
    let id = match opt_i64(at_ref(it, "chat_id")) {
        Some(n) => n,
        None => 0,
    };
    let title = match opt_str(at_ref(it, "title")) {
        Some(t) => t.clone(),
        None => concat(owned("Chat #"), i64_to_string(id).as_str()),
    };
    let unread = match opt_i64(at_ref(it, "unread_count")) {
        Some(n) => n,
        None => 0,
    };
    DialogItem { id, title, unread: unread as i32 }
}

/// The messages a response lists, as `message_list` says.
fn message_list_exec(result: &Json) -> (r: Option<&Vec<Json>>)
    ensures
        match r {
            Some(v) => message_list(result@) == Some(items_view(v@, v@.len())),
            None => message_list(result@) is None,
        },
{
    match result.as_array() {
        Some(arr) => {
            proof {
                lemma_items_view(arr@, arr@.len());
            }
            if arr.len() > 0 {
                match arr[0].get("title") {
                    Some(_) => None,
                    None => Some(arr),
                }
            } else {
                None
            }
        },
        None => match result.get("messages") {
            Some(mv) => match mv.as_array() {
                Some(ms) => Some(ms),
                None => None,
            },
            None => None,
        },
    }
}

fn chat_message_exec(m: &Json) -> (r: ChatMessage)
    requires
        message_time_ok(m@),
    ensures
        (r.id, r.sender@, r.text@, r.time@) == chat_message(m@),
{
    let mm = Some(m);
    let id = match opt_i64(at_ref(mm, "id")) {
        Some(n) => n,
        None => match opt_i64(at_ref(mm, "message_id")) {
            Some(n) => n,
            None => 0,
        },
    };
    let sender_id = match opt_i64(at_ref(mm, "sender_id")) {
        Some(n) => n,
        None => match opt_i64(at_ref(at_ref(mm, "sender_id"), "user_id")) {
            Some(n) => n,
            None => 0,
        },
    };
    let text = match opt_str(at_ref(mm, "text")) {
        Some(t) => t.clone(),
        None => match opt_str(at_ref(at_ref(at_ref(mm, "content"), "text"), "text")) {
            Some(t) => t.clone(),
            None => owned("[media]"),
        },
    };
    let ts = match opt_i64(at_ref(mm, "date")) {
        Some(n) => n,
        None => 0,
    };
    ChatMessage { id, sender: user_label_exec(sender_id), text, time: fmt_time(ts) }
}

/// The messages-pane entries of a list of messages.
pub open spec fn chat_messages_view(v: Seq<ChatMessage>) -> Seq<(i64, Seq<char>, Seq<char>, Seq<char>)> {
    Seq::new(v.len(), |i: int| (v[i].id, v[i].sender@, v[i].text@, v[i].time@))
}

fn chat_messages_exec(msgs: &Vec<Json>) -> (r: Vec<ChatMessage>)
    requires
        forall|k: int|
            0 <= k < msgs@.len() ==> #[trigger] message_time_ok(items_view(msgs@, msgs@.len())[k]),
    ensures
        chat_messages_view(r@) =~= Seq::new(
            msgs@.len(),
            |k: int| chat_message(items_view(msgs@, msgs@.len())[k]),
        ),
{
    let ghost g = items_view(msgs@, msgs@.len());
    proof {
        lemma_items_view(msgs@, msgs@.len());
    }
    let mut out: Vec<ChatMessage> = Vec::new();
    let mut i: usize = 0;
    while i < msgs.len()
        invariant
            i <= msgs@.len(),
            g == items_view(msgs@, msgs@.len()),
            g.len() == msgs@.len(),
            forall|k: int| 0 <= k < msgs@.len() ==> #[trigger] g[k] == msgs@[k]@,
            forall|k: int| 0 <= k < g.len() ==> #[trigger] message_time_ok(g[k]),
            out@.len() == i,
            chat_messages_view(out@) =~= Seq::new(i as nat, |k: int| chat_message(g[k])),
        decreases msgs.len() - i,
    {
        assert(message_time_ok(g[i as int]));
        assert(g[i as int] == msgs@[i as int]@);
        let e = chat_message_exec(&msgs[i]);
        let ghost old_out = out@;
        out.push(e);
        proof {
            assert(chat_messages_view(out@)[i as int] == chat_message(g[i as int]));
            assert forall|k: int| 0 <= k < i implies chat_messages_view(out@)[k] == chat_message(g[k]) by {
                assert(out@[k] == old_out[k]);
                assert(chat_messages_view(old_out)[k] == Seq::new(i as nat, |k: int| chat_message(g[k]))[k]);
            }
            assert(chat_messages_view(out@) =~= Seq::new((i + 1) as nat, |k: int| chat_message(g[k])));
        }
        i = i + 1;
    }
    out
}

/// Whether `handle_server_message` can apply `msg` (see `server_message_ok`).
pub fn server_message_ok_exec(msg: &ServerMessage) -> (r: bool)
    ensures
        r == server_message_ok(msg@),
{
    match msg {
        ServerMessage::Response(resp) => {
            if resp.error.is_some() {
                return true;
            }
            match &resp.result {
                Some(result) => match message_list_exec(result) {
                    Some(ms) => {
                        let ghost g = items_view(ms@, ms@.len());
                        proof {
                            lemma_items_view(ms@, ms@.len());
                            assert(msg@ == (ServerMessageView::Response {
                                id: resp.id@,
                                result: Some(result@),
                                error: None,
                            }));
                        }
                        let mut i: usize = 0;
                        while i < ms.len()
                            invariant
                                i <= ms@.len(),
                                g == items_view(ms@, ms@.len()),
                                g.len() == ms@.len(),
                                forall|k: int| 0 <= k < ms@.len() ==> #[trigger] g[k] == ms@[k]@,
                                forall|k: int| 0 <= k < i ==> #[trigger] message_time_ok(g[k]),
                                msg@ == (ServerMessageView::Response {
                                    id: resp.id@,
                                    result: Some(result@),
                                    error: None,
                                }),
                                message_list(result@) == Some(g),
                            decreases ms.len() - i,
                        {
                            assert(g[i as int] == ms@[i as int]@);
                            let ts = match opt_i64(at_ref(Some(&ms[i]), "date")) {
                                Some(n) => n,
                                None => 0,
                            };
                            if ts < 0 || ts > MAX_TIMESTAMP {
                                proof {
                                    assert(!message_time_ok(g[i as int]));
                                    assert(!(forall|k: int| 0 <= k < g.len() ==> #[trigger] message_time_ok(g[k])));
                                    assert(message_list(result@) == Some(g));
                                    assert(message_list(result@)->Some_0 == g);
                                    assert(!result_times_ok(result@));
                                    assert(msg@ == ServerMessageView::Response {
                                        id: resp.id@,
                                        result: Some(result@),
                                        error: None,
                                    });
                                }
                                return false;
                            }
                            i = i + 1;
                        }
                        proof {
                            assert(msg@ == ServerMessageView::Response {
                                id: resp.id@,
                                result: Some(result@),
                                error: None,
                            });
                        }
                        true
                    },
                    None => true,
                },
                None => true,
            }
        },
        _ => true,
    }
}

/// Applies a message from the daemon to the program's state.
pub fn handle_server_message(msg: &ServerMessage, app: &mut App)
    requires
        server_message_ok(msg@),
    ensures
        final(app)@ == handle_server_message_spec(old(app)@, msg@),
{
    match msg {
        ServerMessage::Response(resp) => {
            match &resp.error {
                Some(err) => {
                    app.status = concat(owned("❌  "), err.message.as_str());
                    return;
                },
                None => {},
            }
            match &resp.result {
                Some(result) => match message_list_exec(result) {
                    Some(ms) => {
                        proof {
                            assert(msg@ == (ServerMessageView::Response {
                                id: resp.id@,
                                result: Some(result@),
                                error: None,
                            }));
                            lemma_items_view(ms@, ms@.len());
                        }
                        let v = chat_messages_exec(ms);
                        app.messages = v;
                        proof {
                            assert(app@.messages =~= chat_messages_view(app.messages@));
                        }
                    },
                    None => match result.as_array() {
                        Some(arr) => {
                            proof {
                                lemma_items_view(arr@, arr@.len());
                            }
                            let ghost g = items_view(arr@, arr@.len());
                            let mut ds: Vec<DialogItem> = Vec::new();
                            let mut i: usize = 0;
                            while i < arr.len()
                                invariant
                                    i <= arr@.len(),
                                    g == items_view(arr@, arr@.len()),
                                    g.len() == arr@.len(),
                                    forall|k: int| 0 <= k < arr@.len() ==> #[trigger] g[k] == arr@[k]@,
                                    ds@.len() == i,
                                    forall|k: int|
                                        0 <= k < i ==> ((#[trigger] ds@[k]).id, ds@[k].title@, ds@[k].unread)
                                            == dialog_item(g[k]),
                                decreases arr.len() - i,
                            {
                                let d = dialog_item_exec(&arr[i]);
                                ds.push(d);
                                i = i + 1;
                            }
                            app.dialogs = ds;
                            app.status = concat(usize_to_string(arr.len()), " dialogs loaded");
                            proof {
                                assert(app@.dialogs =~= Seq::new(g.len(), |k: int| dialog_item(g[k])));
                            }
                        },
                        None => {},
                    },
                },
                None => {},
            }
        },
        ServerMessage::Event(ev) => {
            if str_eq(ev.name.as_str(), "new_message") {
                app.status = owned("📨  New message");
            }
        },
        ServerMessage::AuthState(a) => {
            app.status = concat(owned("🔐  Auth: "), a.state.as_str());
        },
    }
}

// ── What the screen shows ──────────────────────────────────────────

/// What `tg-tui` shows for a state (every sender is drawn alike).
pub open spec fn screen_spec(a: AppView) -> ScreenView {
    ScreenView {
        header: " 📱 Telegram TUI │ j/k: navigate │ i: input │ /q: quit "@,
        chats: Seq::new(
            a.dialogs.len(),
            |i: int| (chat_label(a.dialogs[i].1, a.dialogs[i].2), i == a.selected),
        ),
        chats_focused: a.focus == Focus::Dialogs,
        lines: Seq::new(
            a.messages.len(),
            |i: int| (a.messages[i].3, a.messages[i].1, a.messages[i].2, false),
        ),
        input_title: " Input (Enter: send, Esc: back) "@,
        input: a.input + "█"@,
        input_focused: a.focus == Focus::Input,
        status: a.status,
    }
}

/// Lays out what `tg-tui` shows for the current state.
pub fn screen(app: &App) -> (r: Screen)
    ensures
        r@ == screen_spec(app@),
{
    let mut chats: Vec<ChatRow> = Vec::new();
    let mut i: usize = 0;
    while i < app.dialogs.len()
        invariant
            i <= app.dialogs@.len(),
            chats@.len() == i,
            forall|k: int|
                0 <= k < i ==> (#[trigger] chats@[k]).label@ == chat_label(
                    app.dialogs@[k].title@,
                    app.dialogs@[k].unread,
                ) && chats@[k].selected == (k == app.selected),
        decreases app.dialogs.len() - i,
    {
        let label = chat_label_exec(app.dialogs[i].title.as_str(), app.dialogs[i].unread);
        chats.push(ChatRow { label, selected: i == app.selected });
        i = i + 1;
    }
    let mut lines: Vec<PaneLine> = Vec::new();
    let mut j: usize = 0;
    while j < app.messages.len()
        invariant
            j <= app.messages@.len(),
            lines@.len() == j,
            forall|k: int|
                0 <= k < j ==> (#[trigger] lines@[k]).time@ == app.messages@[k].time@ && lines@[k].sender@
                    == app.messages@[k].sender@ && lines@[k].text@ == app.messages@[k].text@
                    && !lines@[k].mine,
        decreases app.messages.len() - j,
    {
        let m = &app.messages[j];
        lines.push(
            PaneLine { time: m.time.clone(), sender: m.sender.clone(), text: m.text.clone(), mine: false },
        );
        j = j + 1;
    }
    let r = Screen {
        header: owned(" 📱 Telegram TUI │ j/k: navigate │ i: input │ /q: quit "),
        chats,
        chats_focused: app.focus == Focus::Dialogs,
        lines,
        input_title: owned(" Input (Enter: send, Esc: back) "),
        input: concat(app.input.clone(), "█"),
        input_focused: app.focus == Focus::Input,
        status: app.status.clone(),
    };
    assert(r@.chats =~= screen_spec(app@).chats);
    assert(r@.lines =~= screen_spec(app@).lines);
    r
}

// ── Laws ───────────────────────────────────────────────────────────

proof fn lemma_split_valid(b: Seq<u8>, i: int)
    requires
        valid_utf8(b),
        is_char_boundary(b, i),
        0 <= i <= b.len(),
    ensures
        valid_utf8(b.take(i)),
        valid_utf8(b.skip(i)),
{
    vstd::utf8::valid_utf8_split(b, i);
    assert(b.take(i) =~= b.subrange(0, i));
    assert(b.skip(i) =~= b.subrange(i, b.len() as int));
}

/// Removing the character at a boundary leaves valid text, shorter by that character.
proof fn lemma_remove_valid(b: Seq<u8>, i: int)
    requires
        valid_utf8(b),
        is_char_boundary(b, i),
        0 <= i < b.len(),
    ensures
        1 <= length_of_first_scalar(b.skip(i)) <= b.len() - i,
        valid_utf8(b.take(i) + b.skip(i + length_of_first_scalar(b.skip(i)))),
{
    lemma_split_valid(b, i);
    let t = b.skip(i);
    assert(t.len() > 0);
    assert(valid_first_scalar(t) && valid_utf8(pop_first_scalar(t)));
    let l = length_of_first_scalar(t);
    assert(pop_first_scalar(t) =~= b.skip(i + l));
    broadcast use vstd::utf8::valid_utf8_concat;
}

/// Inserting a character at a boundary leaves valid text, longer by its encoding.
proof fn lemma_insert_valid(b: Seq<u8>, i: int, c: char)
    requires
        valid_utf8(b),
        is_char_boundary(b, i),
        0 <= i <= b.len(),
    ensures
        encode_utf8(seq![c]).len() >= 1,
        valid_utf8(b.take(i) + encode_utf8(seq![c]) + b.skip(i)),
{
    lemma_split_valid(b, i);
    vstd::utf8::encode_utf8_first_scalar(seq![c]);
    broadcast use vstd::utf8::valid_utf8_concat, vstd::utf8::encode_utf8_valid_utf8;
    assert(valid_utf8(encode_utf8(seq![c])));
    assert(valid_utf8(b.take(i) + encode_utf8(seq![c])));
}

/// The cursor never passes the end of the input: every key the program
/// handles keeps it within the input's bytes.
pub proof fn lemma_cursor_stays_in_input(a: AppView, k: KeyPress)
    requires
        a.cursor <= byte_len(a.input),
        key_ok(a, k),
    ensures
        handle_key_spec(a, k).0.cursor <= byte_len(handle_key_spec(a, k).0.input),
{
    broadcast use vstd::utf8::encode_utf8_valid_utf8, vstd::utf8::decode_utf8_encode_utf8;

    let b = bytes_of(a.input);
    assert(valid_utf8(b));
    match a.focus {
        Focus::Dialogs => {
            reveal_strlit("/");
            assert("/"@ =~= seq!['/']);
            assert(encode_utf8(seq!['/']).len() >= 1) by {
                vstd::utf8::encode_utf8_first_scalar(seq!['/']);
            }
        },
        Focus::Input => match k.key {
            Key::Char(c) => if k.plain {
                lemma_insert_valid(b, a.cursor as int, c);
            },
            Key::Backspace => if a.cursor > 0 {
                lemma_remove_valid(b, a.cursor - 1);
            },
            Key::Delete => if a.cursor < byte_len(a.input) {
                lemma_remove_valid(b, a.cursor as int);
            },
            _ => {},
        },
    }
}

/// Moving down the chat list and back up returns to the same chat, with
/// the same list, input and focus.
pub proof fn lemma_down_up_returns(a: AppView)
    requires
        a.focus == Focus::Dialogs,
        a.selected + 1 < a.dialogs.len(),
        a.dialogs.len() <= usize::MAX,
    ensures
        ({
            let c = handle_key_spec(
                handle_key_spec(a, KeyPress { key: Key::Down, plain: true }).0,
                KeyPress { key: Key::Up, plain: true },
            ).0;
            c.selected == a.selected && c.dialogs == a.dialogs && c.input == a.input && c.focus
                == a.focus
        }),
{
    let b = handle_key_spec(a, KeyPress { key: Key::Down, plain: true }).0;
    assert(a.selected < crate::tui::sat_dec(a.dialogs.len()));
    assert(b.selected == a.selected + 1);
    assert(b.selected > 0);
}

/// Backspace takes back a character just typed, wherever the cursor is:
/// the input and the cursor are as they were.
pub proof fn lemma_backspace_undoes_typing(a: AppView, c: char)
    requires
        a.focus == Focus::Input,
        key_ok(a, KeyPress { key: Key::Char(c), plain: true }),
        byte_len(a.input) + 4 <= usize::MAX,
    ensures
        key_ok(
            handle_key_spec(a, KeyPress { key: Key::Char(c), plain: true }).0,
            KeyPress { key: Key::Backspace, plain: true },
        ),
        handle_key_spec(
            handle_key_spec(a, KeyPress { key: Key::Char(c), plain: true }).0,
            KeyPress { key: Key::Backspace, plain: true },
        ).0 == a,
{
    broadcast use vstd::utf8::encode_utf8_valid_utf8, vstd::utf8::decode_utf8_encode_utf8;

    let b = bytes_of(a.input);
    let e = encode_utf8(seq![c]);
    let cur = a.cursor as int;
    lemma_insert_valid(b, cur, c);
    let b2 = b.take(cur) + e + b.skip(cur);
    let a2 = handle_key_spec(a, KeyPress { key: Key::Char(c), plain: true }).0;
    assert(a2.input == decode_utf8(b2));
    assert(bytes_of(a2.input) == b2);
    assert(a2.cursor == cur + 1);
    vstd::utf8::encode_utf8_first_scalar(seq![c]);
    assert(seq![c].drop_first() =~= Seq::<char>::empty());
    assert(encode_utf8(Seq::<char>::empty()) =~= Seq::<u8>::empty());
    assert(e == vstd::utf8::encode_scalar(seq![c][0] as u32) + encode_utf8(seq![c].drop_first()));
    assert(e =~= vstd::utf8::encode_scalar(c as u32));
    assert(e.len() >= 1);
    assert(e.len() <= 4);
    assert(b2[cur] == e[0]);
    assert(!is_continuation_byte(b2[cur]));
    vstd::utf8::is_char_boundary_iff_not_is_continuation_byte(b2, cur);
    assert(is_char_boundary(b2, cur));
    let t = b2.skip(cur);
    assert(t =~= e + b.skip(cur));
    assert(t[0] == e[0]);
    assert(length_of_first_scalar(t) == length_of_first_scalar(e));
    assert(b2.take(cur) + b2.skip(cur + length_of_first_scalar(t)) =~= b);
    vstd::utf8::encode_utf8_decode_utf8(a.input);
}


/// Esc in the input line discards the draft and returns to the chat list,
/// where j/k move again; it sends nothing and leaves the chats, the
/// selection, the messages and the status as they were.
pub proof fn lemma_esc_returns_to_chats(a: AppView, k: KeyPress)
    requires
        a.focus == Focus::Input,
        k.key == Key::Esc,
    ensures
        ({
            let (b, out) = handle_key_spec(a, k);
            &&& b.focus == Focus::Dialogs
            &&& b.input.len() == 0
            &&& b.cursor == 0
            &&& out is None
            &&& b.dialogs == a.dialogs
            &&& b.selected == a.selected
            &&& b.messages == a.messages
            &&& b.status == a.status
            &&& b.running == a.running
        }),
{
}

/// On the chat list, q or Esc stops the program and changes nothing else.
pub proof fn lemma_quit_from_chats(a: AppView, k: KeyPress)
    requires
        a.focus == Focus::Dialogs,
        k.key == Key::Esc || k.key == Key::Char('q'),
    ensures
        ({
            let (b, out) = handle_key_spec(a, k);
            &&& !b.running
            &&& out is None
            &&& b == AppView { running: false, ..a }
        }),
{
}


/// Enter on a typed message sends exactly that text to the selected chat,
/// clears the input line and stays in it.
pub proof fn lemma_enter_sends_to_selected_chat(a: AppView, k: KeyPress)
    requires
        a.focus == Focus::Input,
        k.key == Key::Enter,
        a.input.len() > 0,
        a.input[0] != '/',
        a.selected < a.dialogs.len(),
    ensures
        ({
            let (b, out) = handle_key_spec(a, k);
            &&& b.input.len() == 0
            &&& b.cursor == 0
            &&& b.focus == Focus::Input
            &&& b.dialogs == a.dialogs
            &&& b.selected == a.selected
            &&& out matches Some((method, params)) && method == SEND_MESSAGE@ && at(params, "chat_id"@)
                == JsonView::Int(a.dialogs[a.selected as int].0) && at(params, "text"@) == JsonView::Str(
                a.input,
            )
        }),
{
    reveal_strlit("chat_id");
    reveal_strlit("text");
    let (b, out) = handle_key_spec(a, k);
    let c = a.dialogs[a.selected as int].0;
    assert(current_chat_id_spec(AppView { input: Seq::empty(), cursor: 0, ..a }) == Some(c));
    let fs = seq![("chat_id"@, JsonView::Int(c)), ("text"@, JsonView::Str(a.input))];
    assert(out == Some((SEND_MESSAGE@, JsonView::Object(fs))));
    assert(fs[0].0 == "chat_id"@);
    assert(fs[0].0 != "text"@);
    crate::json::lemma_find_field_index(fs, "chat_id"@, 0);
    crate::json::lemma_find_field_index(fs, "text"@, 1);
}

/// Moving down the chat list selects the next chat and asks for its
/// messages (50 of them); on the last chat it does nothing.
pub proof fn lemma_down_loads_next_chat(a: AppView, k: KeyPress)
    requires
        a.focus == Focus::Dialogs,
        k.key == Key::Down || k.key == Key::Char('j'),
        a.dialogs.len() <= usize::MAX,
    ensures
        ({
            let (b, out) = handle_key_spec(a, k);
            &&& a.selected + 1 < a.dialogs.len() ==> (b.selected == a.selected + 1 && out is Some
                && out->Some_0.0 == GET_MESSAGES@ && at(out->Some_0.1, "chat_id"@) == JsonView::Int(
                a.dialogs[a.selected + 1].0,
            ) && at(out->Some_0.1, "limit"@) == JsonView::Int(50))
            &&& a.selected + 1 >= a.dialogs.len() ==> b == a && out is None
        }),
{
    reveal_strlit("chat_id");
    reveal_strlit("limit");
    let (b, out) = handle_key_spec(a, k);
    if a.selected + 1 < a.dialogs.len() {
        assert(a.selected < crate::tui::sat_dec(a.dialogs.len()));
        let c = a.dialogs[a.selected + 1].0;
        let fs = seq![("chat_id"@, JsonView::Int(c)), ("limit"@, JsonView::Int(50))];
        assert(out == Some((GET_MESSAGES@, JsonView::Object(fs))));
        assert(fs[0].0 == "chat_id"@);
        assert(fs[0].0 != "limit"@);
        crate::json::lemma_find_field_index(fs, "chat_id"@, 0);
        crate::json::lemma_find_field_index(fs, "limit"@, 1);
    } else {
        assert(!(a.selected < crate::tui::sat_dec(a.dialogs.len())));
    }
}


/// A chat list from the daemon (an array that is empty or whose first item
/// has a title) replaces the chats in order, each with its id, its title
/// (`Chat #<id>` where it has none) and its unread count, reports how many
/// were loaded, and leaves the messages alone.
pub proof fn lemma_dialogs_loaded(a: AppView, id: Seq<char>, arr: Seq<JsonView>)
    requires
        arr.len() == 0 || get(arr[0], "title"@) is Some,
    ensures
        ({
            let b = handle_server_message_spec(
                a,
                ServerMessageView::Response { id, result: Some(JsonView::Array(arr)), error: None },
            );
            &&& b.dialogs.len() == arr.len()
            &&& forall|k: int|
                0 <= k < arr.len() ==> #[trigger] b.dialogs[k] == (
                    int_or_zero(at(arr[k], "chat_id"@)),
                    match as_str(at(arr[k], "title"@)) {
                        Some(t) => t,
                        None => "Chat #"@ + decimal(int_or_zero(at(arr[k], "chat_id"@)) as int),
                    },
                    int_or_zero(at(arr[k], "unread_count"@)) as i32,
                )
            &&& b.status == decimal(arr.len() as int) + " dialogs loaded"@
            &&& b.messages == a.messages
        }),
{
}

/// A list of messages from the daemon (cached rows, or TDLib's `messages`)
/// replaces the messages pane in order: each message's id (`id`, else
/// `message_id`), `user#<sender>`, its text (the row's, else its text
/// content, else `[media]`) and its time of day; the chats stay as they were.
pub proof fn lemma_messages_loaded(a: AppView, id: Seq<char>, result: JsonView, ms: Seq<JsonView>)
    requires
        message_list(result) == Some(ms),
    ensures
        ({
            let b = handle_server_message_spec(
                a,
                ServerMessageView::Response { id, result: Some(result), error: None },
            );
            &&& b.dialogs == a.dialogs
            &&& b.status == a.status
            &&& b.messages.len() == ms.len()
            &&& forall|k: int|
                0 <= k < ms.len() ==> {
                    let m = ms[k];
                    #[trigger] b.messages[k] == (
                        match as_i64(at(m, "id"@)) {
                            Some(n) => n,
                            None => int_or_zero(at(m, "message_id"@)),
                        },
                        user_label(
                            match as_i64(at(m, "sender_id"@)) {
                                Some(n) => n,
                                None => int_or_zero(at(at(m, "sender_id"@), "user_id"@)),
                            },
                        ),
                        match as_str(at(m, "text"@)) {
                            Some(t) => t,
                            None => match as_str(at(at(at(m, "content"@), "text"@), "text"@)) {
                                Some(t) => t,
                                None => "[media]"@,
                            },
                        },
                        clock_text(int_or_zero(at(m, "date"@)) as int),
                    )
                }
        }),
{
}

} // verus!
