//! The state machine behind `tg tui`: keys move through the chat list and
//! edit the input line; server messages fill the chat list, the messages
//! pane and the status line. Drawing and the terminal itself stay outside.

use vstd::prelude::*;
use crate::json::{
    Json, JsonView, at, get, as_i64, as_str, as_bool, items_view, lemma_items_view, at_ref, opt_i64,
    opt_str, opt_bool,
};
use crate::protocol::{obj2, jstring, GET_MESSAGES, SEND_MESSAGE, ServerMessage, ServerMessageView};
use crate::text::{
    owned, push_char, pop_char, starts_with, is_prefix, concat, decimal, usize_to_string, str_eq,
};
use crate::events::{int_or_zero, message_text};
use crate::display::{
    content_label, detect_content_label, utc_format, fmt_time, MAX_TIMESTAMP, user_label,
    user_label_exec, debug_text_list, debug_list,
};

verus! {

#[derive(Debug, Clone, Copy, PartialEq, Eq, Structural)]
pub enum Focus {
    Dialogs,
    Input,
}

/// A key as the TUI reads it.
#[derive(Debug, Clone, Copy, PartialEq, Eq, Structural)]
pub enum Key {
    Char(char),
    Enter,
    Esc,
    Up,
    Down,
    Left,
    Right,
    Backspace,
    Delete,
    Other,
}

/// A key press; `plain` when no modifier other than Shift is held.
#[derive(Debug, Clone, Copy, PartialEq, Eq, Structural)]
pub struct KeyPress {
    pub key: Key,
    pub plain: bool,
}

/// A request the TUI sends to the daemon (the runtime gives it a fresh id).
#[derive(Debug, PartialEq)]
pub struct Outgoing {
    pub method: String,
    pub params: Json,
}

pub open spec fn outgoing_view(o: Option<Outgoing>) -> Option<(Seq<char>, JsonView)> {
    match o {
        Some(r) => Some((r.method@, r.params@)),
        None => None,
    }
}

#[derive(Debug, PartialEq)]
pub struct App {
    /// (chat id, title, unread count)
    pub dialogs: Vec<(i64, String, i32)>,
    pub selected: usize,
    /// (message id, sender, text, time)
    pub messages: Vec<(i64, String, String, String)>,
    pub input: String,
    pub focus: Focus,
    pub status: String,
    pub running: bool,
}

pub struct AppView {
    pub dialogs: Seq<(i64, Seq<char>, i32)>,
    pub selected: usize,
    pub messages: Seq<(i64, Seq<char>, Seq<char>, Seq<char>)>,
    pub input: Seq<char>,
    pub focus: Focus,
    pub status: Seq<char>,
    pub running: bool,
}

pub open spec fn dialogs_view(v: Seq<(i64, String, i32)>) -> Seq<(i64, Seq<char>, i32)> {
    Seq::new(v.len(), |i: int| (v[i].0, v[i].1@, v[i].2))
}

pub open spec fn messages_view(v: Seq<(i64, String, String, String)>) -> Seq<
    (i64, Seq<char>, Seq<char>, Seq<char>),
> {
    Seq::new(v.len(), |i: int| (v[i].0, v[i].1@, v[i].2@, v[i].3@))
}

impl View for App {
    type V = AppView;

    open spec fn view(&self) -> AppView {
        AppView {
            dialogs: dialogs_view(self.dialogs@),
            selected: self.selected,
            messages: messages_view(self.messages@),
            input: self.input@,
            focus: self.focus,
            status: self.status@,
            running: self.running,
        }
    }
}

/// The chat under the cursor, if the cursor is on one.
pub open spec fn current_chat_spec(a: AppView) -> Option<i64> {
    if a.selected < a.dialogs.len() {
        Some(a.dialogs[a.selected as int].0)
    } else {
        None
    }
}

/// The request that loads the messages of the chat under the cursor.
pub open spec fn load_spec(a: AppView) -> Option<(Seq<char>, JsonView)> {
    match current_chat_spec(a) {
        Some(c) => Some(
            (
                GET_MESSAGES@,
                JsonView::Object(seq![("chat_id"@, JsonView::Int(c)), ("limit"@, JsonView::Int(200))]),
            ),
        ),
        None => None,
    }
}

/// The request that sends `text` to `chat`.
pub open spec fn send_spec(chat: i64, text: Seq<char>) -> (Seq<char>, JsonView) {
    (
        SEND_MESSAGE@,
        JsonView::Object(seq![("chat_id"@, JsonView::Int(chat)), ("text"@, JsonView::Str(text))]),
    )
}

/// `n - 1`, but not below zero.
pub open spec fn sat_dec(n: nat) -> nat {
    if n == 0 {
        0
    } else {
        (n - 1) as nat
    }
}

/// The state after a key press in the chat list, and the request it sends.
pub open spec fn dialogs_key_spec(a: AppView, key: Key) -> (AppView, Option<(Seq<char>, JsonView)>) {
    match key {
        Key::Char('q') | Key::Esc => (AppView { running: false, ..a }, None),
        Key::Char('i') | Key::Enter => (AppView { focus: Focus::Input, ..a }, None),
        Key::Char('j') | Key::Down => {
            if a.selected < sat_dec(a.dialogs.len()) {
                let b = AppView { selected: (a.selected + 1) as usize, ..a };
                (b, load_spec(b))
            } else {
                (a, None)
            }
        },
        Key::Char('k') | Key::Up => {
            if a.selected > 0 {
                let b = AppView { selected: (a.selected - 1) as usize, ..a };
                (b, load_spec(b))
            } else {
                (a, None)
            }
        },
        Key::Char('/') => (AppView { focus: Focus::Input, input: "/"@, ..a }, None),
        _ => (a, None),
    }
}

/// The state after a key press in the input line, and the request it sends.
pub open spec fn input_key_spec(a: AppView, key: Key, plain: bool) -> (
    AppView,
    Option<(Seq<char>, JsonView)>,
) {
    match key {
        Key::Esc => (AppView { input: Seq::empty(), focus: Focus::Dialogs, ..a }, None),
        Key::Enter => {
            let text = a.input;
            let b = AppView { input: Seq::empty(), ..a };
            if text.len() == 0 {
                (b, None)
            } else if is_prefix("/q"@, text) {
                (AppView { running: false, ..b }, None)
            } else {
                match current_chat_spec(b) {
                    Some(c) => (b, Some(send_spec(c, text))),
                    None => (b, None),
                }
            }
        },
        Key::Char(c) => {
            if plain {
                (AppView { input: a.input.push(c), ..a }, None)
            } else {
                (a, None)
            }
        },
        Key::Backspace => {
            if a.input.len() > 0 {
                (AppView { input: a.input.drop_last(), ..a }, None)
            } else {
                (a, None)
            }
        },
        _ => (a, None),
    }
}

/// The state after a key press, and the request it sends.
pub open spec fn handle_key_spec(a: AppView, k: KeyPress) -> (AppView, Option<(Seq<char>, JsonView)>) {
    match a.focus {
        Focus::Dialogs => dialogs_key_spec(a, k.key),
        Focus::Input => input_key_spec(a, k.key, k.plain),
    }
}

impl App {
    pub fn new() -> (r: Self)
        ensures
            r@.dialogs.len() == 0,
            r@.selected == 0,
            r@.messages.len() == 0,
            r@.input.len() == 0,
            r@.focus == Focus::Dialogs,
            r@.status == "Starting…"@,
            r@.running,
    {
        let r = App {
            dialogs: Vec::new(),
            selected: 0,
            messages: Vec::new(),
            input: String::new(),
            focus: Focus::Dialogs,
            status: owned("Starting…"),
            running: true,
        };
        assert(r@.dialogs =~= Seq::empty());
        assert(r@.messages =~= Seq::empty());
        r
    }

    pub fn current_chat(&self) -> (r: Option<i64>)
        ensures
            r == current_chat_spec(self@),
    {
        if self.selected < self.dialogs.len() {
            Some(self.dialogs[self.selected].0)
        } else {
            None
        }
    }
}

/// The request that loads the messages of the chat under the cursor.
pub fn load_msgs(app: &App) -> (r: Option<Outgoing>)
    ensures
        outgoing_view(r) == load_spec(app@),
{
    match app.current_chat() {
        Some(chat) => Some(
            Outgoing {
                method: owned(GET_MESSAGES),
                params: obj2("chat_id", Json::Int(chat), "limit", Json::Int(200)),
            },
        ),
        None => None,
    }
}

/// Applies a key press; returns the request it sends, if any.
pub fn handle_key(app: &mut App, key: KeyPress) -> (r: Option<Outgoing>)
    ensures
        (final(app)@, outgoing_view(r)) == handle_key_spec(old(app)@, key),
{
    match app.focus {
        Focus::Dialogs => match key.key {
            Key::Char('q') | Key::Esc => {
                app.running = false;
                None
            },
            Key::Char('i') | Key::Enter => {
                app.focus = Focus::Input;
                None
            },
            Key::Char('j') | Key::Down => {
                let last = if app.dialogs.len() == 0 {
                    0
                } else {
                    app.dialogs.len() - 1
                };
                if app.selected < last {
                    app.selected = app.selected + 1;
                    load_msgs(app)
                } else {
                    None
                }
            },
            Key::Char('k') | Key::Up => {
                if app.selected > 0 {
                    app.selected = app.selected - 1;
                    load_msgs(app)
                } else {
                    None
                }
            },
            Key::Char('/') => {
                app.focus = Focus::Input;
                app.input = owned("/");
                None
            },
            _ => None,
        },
        Focus::Input => match key.key {
            Key::Esc => {
                app.input = String::new();
                app.focus = Focus::Dialogs;
                None
            },
            Key::Enter => {
                let mut text = String::new();
                core::mem::swap(&mut text, &mut app.input);
                if text.unicode_len() == 0 {
                    None
                } else if starts_with(text.as_str(), "/q") {
                    app.running = false;
                    None
                } else {
                    match app.current_chat() {
                        Some(chat) => Some(
                            Outgoing {
                                method: owned(SEND_MESSAGE),
                                params: obj2("chat_id", Json::Int(chat), "text", jstring(text)),
                            },
                        ),
                        None => None,
                    }
                }
            },
            Key::Char(c) => {
                if key.plain {
                    push_char(&mut app.input, c);
                }
                None
            },
            Key::Backspace => {
                pop_char(&mut app.input);
                None
            },
            _ => None,
        },
    }
}

// ── Server messages ────────────────────────────────────────────────

/// The chat-list entry for one chat object.
pub open spec fn dialog_entry(item: JsonView) -> (i64, Seq<char>, i32) {
    (
        int_or_zero(at(item, "id"@)),
        match as_str(at(item, "title"@)) {
            Some(t) => t,
            None => "?"@,
        },
        int_or_zero(at(item, "unread_count"@)) as i32,
    )
}

/// A result is a chat list when its first item has a title.
pub open spec fn is_chat_list(arr: Seq<JsonView>) -> bool {
    arr.len() > 0 && get(arr[0], "title"@) is Some
}

pub open spec fn sender_of(m: JsonView) -> Seq<char> {
    if as_bool(at(m, "is_outgoing"@)) == Some(true) {
        "Me"@
    } else {
        match as_i64(at(at(m, "sender_id"@), "user_id"@)) {
            Some(u) => user_label(u),
            None => "system"@,
        }
    }
}

pub open spec fn text_line(m: JsonView) -> Seq<char> {
    match message_text(m) {
        Some(t) => t,
        None => content_label(m),
    }
}

/// The messages-pane line for one TDLib message.
pub open spec fn message_entry(m: JsonView) -> (i64, Seq<char>, Seq<char>, Seq<char>) {
    (
        int_or_zero(at(m, "id"@)),
        sender_of(m),
        text_line(m),
        utc_format(int_or_zero(at(m, "date"@)), "%H:%M"@),
    )
}

/// The messages a result lists: TDLib's `{"messages": [...]}`. An array
/// (a chat list, or cached rows) lists none.
pub open spec fn listed_messages(result: JsonView) -> Option<Seq<JsonView>> {
    match get(result, "messages"@) {
        Some(JsonView::Array(ms)) => Some(ms),
        _ => None,
    }
}

/// A message whose date the TUI can render.
pub open spec fn displayable(m: JsonView) -> bool {
    0 <= int_or_zero(at(m, "date"@)) <= MAX_TIMESTAMP
}

/// The names of the fields of an object; none for any other value.
pub open spec fn keys_of(j: JsonView) -> Seq<Seq<char>> {
    match j {
        JsonView::Object(fs) => Seq::new(fs.len(), |i: int| fs[i].0),
        _ => Seq::empty(),
    }
}

/// The state after a response carrying `result`: a chat list (an array
/// whose first item has a title) fills the chats; TDLib's messages fill the
/// messages pane; the status then counts the messages, or else shows the
/// result's keys (none for an array).
pub open spec fn apply_result(a: AppView, result: JsonView) -> AppView {
    let a1 = match result {
        JsonView::Array(arr) => if is_chat_list(arr) {
            AppView {
                dialogs: Seq::new(arr.len(), |k: int| dialog_entry(arr[k])),
                status: decimal(arr.len() as int) + " chats"@,
                ..a
            }
        } else {
            a
        },
        _ => a,
    };
    match listed_messages(result) {
        Some(msgs) => AppView {
            messages: Seq::new(msgs.len(), |k: int| message_entry(msgs[k])),
            status: decimal(msgs.len() as int) + " messages"@,
            ..a1
        },
        None => AppView { status: "resp keys: "@ + debug_text_list(keys_of(result)), ..a1 },
    }
}

/// Every message a result lists has a date the TUI can render.
pub open spec fn result_displayable(r: JsonView) -> bool {
    match listed_messages(r) {
        Some(msgs) => forall|k: int| 0 <= k < msgs.len() ==> #[trigger] displayable(msgs[k]),
        None => true,
    }
}

/// The TUI can take a server message: every message it lists has a date it can render.
pub open spec fn event_displayable(m: ServerMessageView) -> bool {
    match m {
        ServerMessageView::Response { result: Some(r), .. } => result_displayable(r),
        _ => true,
    }
}

/// The state after a server message.
pub open spec fn handle_event_spec(a: AppView, m: ServerMessageView) -> AppView {
    match m {
        ServerMessageView::Response { result, error, .. } => {
            let a1 = match result {
                Some(r) => apply_result(a, r),
                None => a,
            };
            match error {
                Some((_, msg)) => AppView { status: "❌ "@ + msg, ..a1 },
                None => a1,
            }
        },
        ServerMessageView::Event { name, .. } => if name == "new_message"@ {
            AppView { status: "📨 New message"@, ..a }
        } else {
            a
        },
        ServerMessageView::AuthState { state, .. } => AppView { status: "🔐 "@ + state, ..a },
    }
}

fn dialog_entry_exec(item: &Json) -> (r: (i64, String, i32))
    ensures
        (r.0, r.1@, r.2) == dialog_entry(item@),
{
    let it = Some(item);
    let id = match opt_i64(at_ref(it, "id")) {
        Some(n) => n,
        None => 0,
    };
    let title = match opt_str(at_ref(it, "title")) {
        Some(t) => t.clone(),
        None => owned("?"),
    };
    let unread = match opt_i64(at_ref(it, "unread_count")) {
        Some(n) => n,
        None => 0,
    };
    (id, title, unread as i32)
}

fn message_entry_exec(m: &Json) -> (r: (i64, String, String, String))
    requires
        displayable(m@),
    ensures
        (r.0, r.1@, r.2@, r.3@) == message_entry(m@),
{
    let mm = Some(m);
    let id = match opt_i64(at_ref(mm, "id")) {
        Some(n) => n,
        None => 0,
    };
    let is_out = match opt_bool(at_ref(mm, "is_outgoing")) {
        Some(b) => b,
        None => false,
    };
    let sender = if is_out {
        owned("Me")
    } else {
        match opt_i64(at_ref(at_ref(mm, "sender_id"), "user_id")) {
            Some(u) => user_label_exec(u),
            None => owned("system"),
        }
    };
    let content = at_ref(mm, "content");
    let text = match opt_str(at_ref(at_ref(content, "text"), "text")) {
        Some(t) => t.clone(),
        None => match opt_str(at_ref(at_ref(content, "caption"), "text")) {
            Some(c) => c.clone(),
            None => detect_content_label(m),
        },
    };
    let ts = match opt_i64(at_ref(mm, "date")) {
        Some(n) => n,
        None => 0,
    };
    (id, sender, text, fmt_time(ts))
}

fn is_chat_list_exec(arr: &Vec<Json>) -> (r: bool)
    ensures
        r == is_chat_list(items_view(arr@, arr@.len())),
{
    proof {
        lemma_items_view(arr@, arr@.len());
    }
    if arr.len() == 0 {
        false
    } else {
        match arr[0].get("title") {
            Some(_) => true,
            None => false,
        }
    }
}

/// The messages a result lists, as `listed_messages` says.
fn listed_messages_exec(result: &Json) -> (r: Option<&Vec<Json>>)
    ensures
        match r {
            Some(v) => listed_messages(result@) == Some(items_view(v@, v@.len())),
            None => listed_messages(result@) is None,
        },
{
    match result.get("messages") {
        Some(mv) => match mv.as_array() {
            Some(ms) => Some(ms),
            None => None,
        },
        None => None,
    }
}

fn set_messages(app: &mut App, msgs: &Vec<Json>)
    requires
        forall|k: int|
            0 <= k < msgs@.len() ==> #[trigger] displayable(items_view(msgs@, msgs@.len())[k]),
    ensures
        final(app)@ == (AppView {
            messages: Seq::new(
                msgs@.len(),
                |k: int| message_entry(items_view(msgs@, msgs@.len())[k]),
            ),
            status: decimal(msgs@.len() as int) + " messages"@,
            ..old(app)@
        }),
{
    let ghost g = items_view(msgs@, msgs@.len());
    proof {
        lemma_items_view(msgs@, msgs@.len());
    }
    let mut ms: Vec<(i64, String, String, String)> = Vec::new();
    let mut i: usize = 0;
    while i < msgs.len()
        invariant
            i <= msgs@.len(),
            g == items_view(msgs@, msgs@.len()),
            g.len() == msgs@.len(),
            forall|k: int| 0 <= k < msgs@.len() ==> #[trigger] g[k] == msgs@[k]@,
            forall|k: int| 0 <= k < g.len() ==> #[trigger] displayable(g[k]),
            ms@.len() == i,
            messages_view(ms@) =~= Seq::new(i as nat, |k: int| message_entry(g[k])),
        decreases msgs.len() - i,
    {
        assert(displayable(g[i as int]));
        let e = message_entry_exec(&msgs[i]);
        let ghost old_ms = ms@;
        ms.push(e);
        proof {
            assert(g[i as int] == msgs@[i as int]@);
            assert(ms@[i as int] == e);
            assert(messages_view(ms@)[i as int] == message_entry(g[i as int]));
            assert forall|k: int| 0 <= k < i implies messages_view(ms@)[k] == message_entry(g[k]) by {
                assert(ms@[k] == old_ms[k]);
                assert(messages_view(old_ms)[k] == Seq::new(i as nat, |k: int| message_entry(g[k]))[k]);
            }
            assert(messages_view(ms@) =~= Seq::new((i + 1) as nat, |k: int| message_entry(g[k])));
        }
        i = i + 1;
    }
    app.messages = ms;
    app.status = concat(usize_to_string(msgs.len()), " messages");
}

fn apply_result_exec(app: &mut App, result: &Json)
    requires
        result_displayable(result@),
    ensures
        final(app)@ == apply_result(old(app)@, result@),
{
    match result.as_array() {
        Some(arr) => {
            if is_chat_list_exec(arr) {
                let ghost g = items_view(arr@, arr@.len());
                proof {
                    lemma_items_view(arr@, arr@.len());
                }
                let mut ds: Vec<(i64, String, i32)> = Vec::new();
                let mut i: usize = 0;
                while i < arr.len()
                    invariant
                        i <= arr@.len(),
                        g == items_view(arr@, arr@.len()),
                        g.len() == arr@.len(),
                        forall|k: int| 0 <= k < arr@.len() ==> #[trigger] g[k] == arr@[k]@,
                        ds@.len() == i,
                        dialogs_view(ds@) =~= Seq::new(i as nat, |k: int| dialog_entry(g[k])),
                    decreases arr.len() - i,
                {
                    let e = dialog_entry_exec(&arr[i]);
                    let ghost old_ds = ds@;
                    ds.push(e);
                    proof {
                        assert(g[i as int] == arr@[i as int]@);
                        assert(ds@[i as int] == e);
                        assert(dialogs_view(ds@)[i as int] == dialog_entry(g[i as int]));
                        assert forall|k: int| 0 <= k < i implies dialogs_view(ds@)[k] == dialog_entry(g[k]) by {
                            assert(ds@[k] == old_ds[k]);
                            assert(dialogs_view(old_ds)[k] == Seq::new(i as nat, |k: int| dialog_entry(g[k]))[k]);
                        }
                        assert(dialogs_view(ds@) =~= Seq::new((i + 1) as nat, |k: int| dialog_entry(g[k])));
                    }
                    i = i + 1;
                }
                app.dialogs = ds;
                app.status = concat(usize_to_string(arr.len()), " chats");
            }
        },
        None => {},
    }
    match listed_messages_exec(result) {
        Some(ms) => {
            proof {
                lemma_items_view(ms@, ms@.len());
                let g = items_view(ms@, ms@.len());
                assert(listed_messages(result@)->Some_0 == g);
            }
            set_messages(app, ms);
        },
        None => {
            let keys = keys_exec(result);
            let d = debug_list(&keys);
            app.status = concat(owned("resp keys: "), d.as_str());
        },
    }
}

fn keys_exec(j: &Json) -> (r: Vec<String>)
    ensures
        r@.map_values(|s: String| s@) == keys_of(j@),
{
    let mut out: Vec<String> = Vec::new();
    match j {
        Json::Object(fs) => {
            proof {
                crate::json::lemma_fields_view(fs@, fs@.len());
            }
            let mut i: usize = 0;
            while i < fs.len()
                invariant
                    i <= fs@.len(),
                    j@ == JsonView::Object(crate::json::fields_view(fs@, fs@.len())),
                    crate::json::fields_view(fs@, fs@.len()).len() == fs@.len(),
                    forall|k: int|
                        0 <= k < fs@.len() ==> #[trigger] crate::json::fields_view(fs@, fs@.len())[k]
                            == (fs@[k].0@, crate::json::json_view(fs@[k].1)),
                    out@.len() == i,
                    out@.map_values(|s: String| s@) =~= Seq::new(i as nat, |k: int| fs@[k].0@),
                decreases fs.len() - i,
            {
                let ghost old_out = out@;
                let k = fs[i].0.clone();
                out.push(k);
                proof {
                    assert(out@[i as int] == k);
                    assert forall|m: int| 0 <= m < i implies out@.map_values(|s: String| s@)[m] == fs@[m].0@ by {
                        assert(out@[m] == old_out[m]);
                        assert(old_out.map_values(|s: String| s@)[m] == Seq::new(i as nat, |k: int| fs@[k].0@)[m]);
                    }
                    assert(out@.map_values(|s: String| s@) =~= Seq::new((i + 1) as nat, |m: int| fs@[m].0@));
                }
                i = i + 1;
            }
            proof {
                assert(keys_of(j@) =~= Seq::new(fs@.len(), |k: int| fs@[k].0@));
            }
        },
        _ => {
            proof {
                assert(out@.map_values(|s: String| s@) =~= Seq::<Seq<char>>::empty());
            }
        },
    }
    out
}

/// Applies a message from the daemon to the TUI state.
pub fn handle_event(msg: &ServerMessage, app: &mut App)
    requires
        event_displayable(msg@),
    ensures
        final(app)@ == handle_event_spec(old(app)@, msg@),
{
    match msg {
        ServerMessage::Response(resp) => {
            match &resp.result {
                Some(result) => apply_result_exec(app, result),
                None => {},
            }
            match &resp.error {
                Some(err) => {
                    app.status = concat(owned("❌ "), err.message.as_str());
                },
                None => {},
            }
        },
        ServerMessage::Event(ev) => {
            if str_eq(ev.name.as_str(), "new_message") {
                app.status = owned("📨 New message");
            }
        },
        ServerMessage::AuthState(a) => {
            app.status = concat(owned("🔐 "), a.state.as_str());
        },
    }
}

// ── What the screen shows ──────────────────────────────────────────

/// A chat in the chat list: its label, and whether the cursor is on it.
#[derive(Debug, PartialEq)]
pub struct ChatRow {
    pub label: String,
    pub selected: bool,
}

/// A line of the messages pane: time, sender, text, and whether it is one
/// of the user's own messages (drawn in another colour).
#[derive(Debug, PartialEq)]
pub struct PaneLine {
    pub time: String,
    pub sender: String,
    pub text: String,
    pub mine: bool,
}

/// Everything a frame of the interface shows, before it is laid out.
#[derive(Debug, PartialEq)]
pub struct Screen {
    pub header: String,
    pub chats: Vec<ChatRow>,
    /// The chat list has the focus (its border is highlighted).
    pub chats_focused: bool,
    pub lines: Vec<PaneLine>,
    pub input_title: String,
    pub input: String,
    /// The input line has the focus.
    pub input_focused: bool,
    pub status: String,
}

pub struct ScreenView {
    pub header: Seq<char>,
    pub chats: Seq<(Seq<char>, bool)>,
    pub chats_focused: bool,
    pub lines: Seq<(Seq<char>, Seq<char>, Seq<char>, bool)>,
    pub input_title: Seq<char>,
    pub input: Seq<char>,
    pub input_focused: bool,
    pub status: Seq<char>,
}

impl View for Screen {
    type V = ScreenView;

    open spec fn view(&self) -> ScreenView {
        ScreenView {
            header: self.header@,
            chats: Seq::new(self.chats@.len(), |i: int| (self.chats@[i].label@, self.chats@[i].selected)),
            chats_focused: self.chats_focused,
            lines: Seq::new(
                self.lines@.len(),
                |i: int|
                    (
                        self.lines@[i].time@,
                        self.lines@[i].sender@,
                        self.lines@[i].text@,
                        self.lines@[i].mine,
                    ),
            ),
            input_title: self.input_title@,
            input: self.input@,
            input_focused: self.input_focused,
            status: self.status@,
        }
    }
}

/// A chat's label: the unread count in brackets when there is one, then the title.
pub open spec fn chat_label(title: Seq<char>, unread: i32) -> Seq<char> {
    if unread > 0 {
        "("@ + decimal(unread as int) + ") "@ + title
    } else {
        title
    }
}

pub fn chat_label_exec(title: &str, unread: i32) -> (r: String)
    ensures
        r@ == chat_label(title@, unread),
{
    if unread > 0 {
        let p = concat(concat(owned("("), crate::text::i64_to_string(unread as i64).as_str()), ") ");
        concat(p, title)
    } else {
        owned(title)
    }
}

/// What `tg tui` shows for a state.
pub open spec fn screen_spec(a: AppView) -> ScreenView {
    ScreenView {
        header: " 📱 tg tui │ j/k navigate │ i input │ /q quit "@,
        chats: Seq::new(
            a.dialogs.len(),
            |i: int| (chat_label(a.dialogs[i].1, a.dialogs[i].2), i == a.selected),
        ),
        chats_focused: a.focus == Focus::Dialogs,
        lines: Seq::new(
            a.messages.len(),
            |i: int| (a.messages[i].3, a.messages[i].1, a.messages[i].2, a.messages[i].1 == "Me"@),
        ),
        input_title: " Input "@,
        input: "> "@ + a.input + "█"@,
        input_focused: a.focus == Focus::Input,
        status: a.status,
    }
}

/// Lays out what `tg tui` shows for the current state.
pub fn screen(app: &App) -> (r: Screen)
    ensures
        r@ == screen_spec(app@),
{
    let mut chats: Vec<ChatRow> = Vec::new();
    let mut i: usize = 0;
    while i < app.dialogs.len()
        invariant
            i <= app.dialogs@.len(),
            chats@.len() == i,
            forall|k: int|
                0 <= k < i ==> (#[trigger] chats@[k]).label@ == chat_label(
                    app.dialogs@[k].1@,
                    app.dialogs@[k].2,
                ) && chats@[k].selected == (k == app.selected),
        decreases app.dialogs.len() - i,
    {
        let label = chat_label_exec(app.dialogs[i].1.as_str(), app.dialogs[i].2);
        chats.push(ChatRow { label, selected: i == app.selected });
        i = i + 1;
    }
    let mut lines: Vec<PaneLine> = Vec::new();
    let mut j: usize = 0;
    while j < app.messages.len()
        invariant
            j <= app.messages@.len(),
            lines@.len() == j,
            forall|k: int|
                0 <= k < j ==> (#[trigger] lines@[k]).time@ == app.messages@[k].3@ && lines@[k].sender@
                    == app.messages@[k].1@ && lines@[k].text@ == app.messages@[k].2@ && lines@[k].mine
                    == (app.messages@[k].1@ == "Me"@),
        decreases app.messages.len() - j,
    {
        let m = &app.messages[j];
        let mine = str_eq(m.1.as_str(), "Me");
        lines.push(PaneLine { time: m.3.clone(), sender: m.1.clone(), text: m.2.clone(), mine });
        j = j + 1;
    }
    let input = concat(concat(owned("> "), app.input.as_str()), "█");
    let r = Screen {
        header: owned(" 📱 tg tui │ j/k navigate │ i input │ /q quit "),
        chats,
        chats_focused: app.focus == Focus::Dialogs,
        lines,
        input_title: owned(" Input "),
        input,
        input_focused: app.focus == Focus::Input,
        status: app.status.clone(),
    };
    assert(r@.chats =~= screen_spec(app@).chats);
    assert(r@.lines =~= screen_spec(app@).lines);
    r
}

// ── Checks before handling ─────────────────────────────────────────

/// The messages a result lists all have dates the TUI can render.
/// Whether `handle_event` can take this message.
pub fn event_displayable_exec(msg: &ServerMessage) -> (r: bool)
    ensures
        r == event_displayable(msg@),
{
    match msg {
        ServerMessage::Response(resp) => match &resp.result {
            Some(result) => match listed_messages_exec(result) {
                Some(ms) => {
                    proof {
                        lemma_items_view(ms@, ms@.len());
                    }
                    let ok = crate::output::all_dated(ms);
                    proof {
                        let g = items_view(ms@, ms@.len());
                        assert(listed_messages(result@)->Some_0 == g);
                        if ok {
                            assert forall|k: int| 0 <= k < g.len() implies #[trigger] displayable(g[k]) by {
                                assert(g[k] == ms@[k]@);
                                assert(crate::output::dated(ms@[k]@));
                            }
                        } else {
                            let k = choose|k: int|
                                0 <= k < ms@.len() && !crate::output::dated(#[trigger] ms@[k]@);
                            assert(g[k] == ms@[k]@);
                            assert(!displayable(g[k]));
                        }
                    }
                    ok
                },
                None => true,
            },
            None => true,
        },
        _ => true,
    }
}

// ── Laws ───────────────────────────────────────────────────────────

/// Keys never change the chat list or the messages, and never move the
/// cursor off the chat list when it was on it.
pub proof fn lemma_keys_keep_selection_in_range(a: AppView, k: KeyPress)
    requires
        a.selected < a.dialogs.len(),
    ensures
        handle_key_spec(a, k).0.selected < handle_key_spec(a, k).0.dialogs.len(),
        handle_key_spec(a, k).0.dialogs == a.dialogs,
        handle_key_spec(a, k).0.messages == a.messages,
{
}

/// Submitting the input line always leaves it empty.
pub proof fn lemma_enter_clears_input(a: AppView)
    requires
        a.focus == Focus::Input,
    ensures
        handle_key_spec(a, KeyPress { key: Key::Enter, plain: true }).0.input.len() == 0,
        handle_key_spec(a, KeyPress { key: Key::Enter, plain: false }).0.input.len() == 0,
{
}

/// The chat a request's parameters name first.
pub open spec fn chat_param(p: JsonView) -> Option<i64> {
    match p {
        JsonView::Object(fs) => if fs.len() > 0 && fs[0].0 == "chat_id"@ {
            match fs[0].1 {
                JsonView::Int(c) => Some(c),
                _ => None,
            }
        } else {
            None
        },
        _ => None,
    }
}

/// A request leaves the TUI only for a chat that is in the chat list.
pub proof fn lemma_requests_name_listed_chats(a: AppView, k: KeyPress)
    ensures
        handle_key_spec(a, k).1 matches Some((m, p)) ==> (exists|i: int|
            0 <= i < a.dialogs.len() && chat_param(p) == Some(#[trigger] a.dialogs[i].0)),
{
    let (b, o) = handle_key_spec(a, k);
    if o is Some {
        assert(b.selected < b.dialogs.len());
        assert(b.dialogs == a.dialogs);
        let i = b.selected as int;
        assert(0 <= i < a.dialogs.len());
    }
}

/// Moving down the chat list and back up returns to the same state.
pub proof fn lemma_down_up_returns(a: AppView)
    requires
        a.focus == Focus::Dialogs,
        a.selected + 1 < a.dialogs.len(),
        a.dialogs.len() <= usize::MAX,
    ensures
        handle_key_spec(
            handle_key_spec(a, KeyPress { key: Key::Down, plain: true }).0,
            KeyPress { key: Key::Up, plain: true },
        ).0 == a,
{
    let b = handle_key_spec(a, KeyPress { key: Key::Down, plain: true }).0;
    assert(a.selected < sat_dec(a.dialogs.len()));
    assert(b == AppView { selected: (a.selected + 1) as usize, ..a });
    assert(b.selected > 0);
    let c = handle_key_spec(b, KeyPress { key: Key::Up, plain: true }).0;
    assert(c == AppView { selected: (b.selected - 1) as usize, ..b });
    assert(c.selected == a.selected);
}

/// Backspace takes back a character just typed.
pub proof fn lemma_backspace_undoes_typing(a: AppView, c: char)
    requires
        a.focus == Focus::Input,
    ensures
        handle_key_spec(
            handle_key_spec(a, KeyPress { key: Key::Char(c), plain: true }).0,
            KeyPress { key: Key::Backspace, plain: true },
        ).0 == a,
{
    assert(a.input.push(c).drop_last() =~= a.input);
}


/// Esc in the input line discards the draft and returns to the chat list,
/// where j/k move again; it sends nothing and leaves the chats, the
/// selection, the messages and the status as they were.
pub proof fn lemma_esc_returns_to_chats(a: AppView, k: KeyPress)
    requires
        a.focus == Focus::Input,
        k.key == Key::Esc,
    ensures
        ({
            let (b, out) = handle_key_spec(a, k);
            &&& b.focus == Focus::Dialogs
            &&& b.input.len() == 0
            &&& out is None
            &&& b.dialogs == a.dialogs
            &&& b.selected == a.selected
            &&& b.messages == a.messages
            &&& b.status == a.status
            &&& b.running == a.running
        }),
{
}

/// On the chat list, q or Esc stops the program and changes nothing else.
pub proof fn lemma_quit_from_chats(a: AppView, k: KeyPress)
    requires
        a.focus == Focus::Dialogs,
        k.key == Key::Esc || k.key == Key::Char('q'),
    ensures
        ({
            let (b, out) = handle_key_spec(a, k);
            &&& !b.running
            &&& out is None
            &&& b == AppView { running: false, ..a }
        }),
{
}


/// TDLib's messages fill the messages pane one line per message, in order:
/// its id; `Me` for an outgoing message, else `user#<id>` of its sender,
/// else `system`; its text, else its caption, else a label for its content;
/// and its time of day. The chat list is left as it was.
pub proof fn lemma_messages_pane_lines(a: AppView, result: JsonView, ms: Seq<JsonView>)
    requires
        get(result, "messages"@) == Some(JsonView::Array(ms)),
    ensures
        ({
            let b = apply_result(a, result);
            &&& b.dialogs == a.dialogs
            &&& b.messages.len() == ms.len()
            &&& forall|k: int|
                0 <= k < ms.len() ==> {
                    let m = ms[k];
                    let content = at(m, "content"@);
                    #[trigger] b.messages[k] == (
                        int_or_zero(at(m, "id"@)),
                        if as_bool(at(m, "is_outgoing"@)) == Some(true) {
                            "Me"@
                        } else {
                            match as_i64(at(at(m, "sender_id"@), "user_id"@)) {
                                Some(u) => user_label(u),
                                None => "system"@,
                            }
                        },
                        match as_str(at(at(content, "text"@), "text"@)) {
                            Some(t) => t,
                            None => match as_str(at(at(content, "caption"@), "text"@)) {
                                Some(c) => c,
                                None => content_label(m),
                            },
                        },
                        utc_format(int_or_zero(at(m, "date"@)), "%H:%M"@),
                    )
                }
        }),
{
    assert(!(result is Array));
    assert(listed_messages(result) == Some(ms));
}


/// Enter on a typed message (not `/q…`) sends exactly that text to the
/// chat under the cursor and clears the input line.
pub proof fn lemma_enter_sends_to_selected_chat(a: AppView, k: KeyPress)
    requires
        a.focus == Focus::Input,
        k.key == Key::Enter,
        a.input.len() > 0,
        !is_prefix("/q"@, a.input),
        a.selected < a.dialogs.len(),
    ensures
        ({
            let (b, out) = handle_key_spec(a, k);
            &&& b.input.len() == 0
            &&& b.focus == Focus::Input
            &&& b.running == a.running
            &&& out is Some && out->Some_0.0 == SEND_MESSAGE@ && at(out->Some_0.1, "chat_id"@)
                == JsonView::Int(a.dialogs[a.selected as int].0) && at(out->Some_0.1, "text"@)
                == JsonView::Str(a.input)
        }),
{
    reveal_strlit("chat_id");
    reveal_strlit("text");
    let fs = seq![("chat_id"@, JsonView::Int(a.dialogs[a.selected as int].0)), ("text"@, JsonView::Str(a.input))];
    assert(fs[0].0 == "chat_id"@);
    assert(fs[0].0 != "text"@);
    crate::json::lemma_find_field_index(fs, "chat_id"@, 0);
    crate::json::lemma_find_field_index(fs, "text"@, 1);
}

/// Moving down the chat list selects the next chat and asks for its latest
/// 200 messages; on the last chat it does nothing.
pub proof fn lemma_down_loads_next_chat(a: AppView, k: KeyPress)
    requires
        a.focus == Focus::Dialogs,
        k.key == Key::Down || k.key == Key::Char('j'),
        a.dialogs.len() <= usize::MAX,
    ensures
        ({
            let (b, out) = handle_key_spec(a, k);
            &&& a.selected + 1 < a.dialogs.len() ==> (b.selected == a.selected + 1 && out is Some
                && out->Some_0.0 == GET_MESSAGES@ && at(out->Some_0.1, "chat_id"@) == JsonView::Int(
                a.dialogs[a.selected + 1].0,
            ) && at(out->Some_0.1, "limit"@) == JsonView::Int(200))
            &&& a.selected + 1 >= a.dialogs.len() ==> b == a && out is None
        }),
{
    reveal_strlit("chat_id");
    reveal_strlit("limit");
    if a.selected + 1 < a.dialogs.len() {
        assert(a.selected < sat_dec(a.dialogs.len()));
        let fs = seq![("chat_id"@, JsonView::Int(a.dialogs[a.selected + 1].0)), ("limit"@, JsonView::Int(200))];
        assert(fs[0].0 == "chat_id"@);
        assert(fs[0].0 != "limit"@);
        crate::json::lemma_find_field_index(fs, "chat_id"@, 0);
        crate::json::lemma_find_field_index(fs, "limit"@, 1);
    } else {
        assert(!(a.selected < sat_dec(a.dialogs.len())));
    }
}

/// A chat-list response (an array whose first item has a title) lists every
/// chat in order with its id, its title (`?` where it has none) and its
/// unread count.
pub proof fn lemma_chat_list_entries(a: AppView, arr: Seq<JsonView>)
    requires
        arr.len() > 0,
        get(arr[0], "title"@) is Some,
    ensures
        ({
            let b = apply_result(a, JsonView::Array(arr));
            &&& b.dialogs.len() == arr.len()
            &&& forall|k: int|
                0 <= k < arr.len() ==> #[trigger] b.dialogs[k] == (
                    int_or_zero(at(arr[k], "id"@)),
                    match as_str(at(arr[k], "title"@)) {
                        Some(t) => t,
                        None => "?"@,
                    },
                    int_or_zero(at(arr[k], "unread_count"@)) as i32,
                )
            &&& b.messages == a.messages
        }),
{
}

} // verus!
