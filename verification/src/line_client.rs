//! The line client: a `tg` frontend that sends one JSON request per line to
//! the daemon and prints the first line it answers with.

use vstd::prelude::*;
use crate::json::{Json, JsonView, at, get, as_i64, as_str, as_bool, at_ref, opt_i64, opt_str, opt_bool, items_view, lemma_items_view};
use crate::protocol::{
    obj1, obj2, obj3, jstr, jstring, GET_ME, LIST_DIALOGS, GET_MESSAGES, SEND_MESSAGE, SEARCH,
    FORWARD_MESSAGE, DELETE_MESSAGE, DOWNLOAD_FILE, MARK_READ, GET_STATUS, LOGOUT, SHUTDOWN,
    AUTH_PHONE, AUTH_CODE, AUTH_PASSWORD,
};
use crate::cli::{chat_value, parse_i64, join_words, join_text};
use crate::text::{owned, concat, str_eq, decimal, i64_to_string, usize_to_string};
use crate::display::{MAX_TIMESTAMP, user_label, user_label_exec, str_or};
use crate::events::int_or_zero;
use crate::output::{
    OutLine, OutLineView, lines_view, text, item_prefix, item_prefix_exec, message_pair,
    message_pair_exec, one_line, str_field_or, i64_or_zero, flatten_spaced, push_spaced,
};

verus! {

// ── Commands ───────────────────────────────────────────────────────

/// The commands of the line client.
#[derive(Debug, PartialEq)]
pub enum Commands {
    Init,
    Login,
    Me,
    Ls { limit: i64 },
    Messages { chat: String, limit: i64 },
    Send { chat: String, text: Vec<String> },
    Search { chat: String, query: String, limit: i64 },
    Forward { from: String, to: String, msg_id: i64 },
    Delete { chat: String, msg_id: i64 },
    Download { chat: String, msg_id: i64 },
    Read { chat: String },
    Status,
    Logout,
    Stop,
}

/// A chat named on the command line: a number when it parses as one, else
/// the name as it was given (a username, resolved by the daemon).
pub fn chat_id_from_str(s: &str) -> (r: Json)
    ensures
        r@ == chat_value(s@),
{
    match parse_i64(s) {
        Some(id) => Json::Int(id),
        None => jstr(s),
    }
}

pub open spec fn empty_object_view() -> JsonView {
    JsonView::Object(Seq::empty())
}

/// The method and parameters a command sends; `None` for `init` and
/// `login`, which do not send a single request.
pub open spec fn line_request_spec(cmd: Commands) -> Option<(Seq<char>, JsonView)> {
    match cmd {
        Commands::Me => Some((GET_ME@, empty_object_view())),
        Commands::Ls { limit } => Some(
            (LIST_DIALOGS@, JsonView::Object(seq![("limit"@, JsonView::Int(limit))])),
        ),
        Commands::Messages { chat, limit } => Some(
            (
                GET_MESSAGES@,
                JsonView::Object(
                    seq![("chat_id"@, chat_value(chat@)), ("limit"@, JsonView::Int(limit))],
                ),
            ),
        ),
        Commands::Send { chat, text } => Some(
            (
                SEND_MESSAGE@,
                JsonView::Object(
                    seq![
                        ("chat_id"@, chat_value(chat@)),
                        ("text"@, JsonView::Str(join_words(text@.map_values(|w: String| w@)))),
                    ],
                ),
            ),
        ),
        Commands::Search { chat, query, limit } => Some(
            (
                SEARCH@,
                JsonView::Object(
                    seq![
                        ("chat_id"@, chat_value(chat@)),
                        ("query"@, JsonView::Str(query@)),
                        ("limit"@, JsonView::Int(limit)),
                    ],
                ),
            ),
        ),
        Commands::Forward { from, to, msg_id } => Some(
            (
                FORWARD_MESSAGE@,
                JsonView::Object(
                    seq![
                        ("from_chat_id"@, chat_value(from@)),
                        ("to_chat_id"@, chat_value(to@)),
                        ("message_id"@, JsonView::Int(msg_id)),
                    ],
                ),
            ),
        ),
        Commands::Delete { chat, msg_id } => Some(
            (
                DELETE_MESSAGE@,
                JsonView::Object(
                    seq![("chat_id"@, chat_value(chat@)), ("message_id"@, JsonView::Int(msg_id))],
                ),
            ),
        ),
        Commands::Download { chat, msg_id } => Some(
            (
                DOWNLOAD_FILE@,
                JsonView::Object(
                    seq![("chat_id"@, chat_value(chat@)), ("message_id"@, JsonView::Int(msg_id))],
                ),
            ),
        ),
        Commands::Read { chat } => Some(
            (MARK_READ@, JsonView::Object(seq![("chat_id"@, chat_value(chat@))])),
        ),
        Commands::Status => Some((GET_STATUS@, empty_object_view())),
        Commands::Logout => Some((LOGOUT@, empty_object_view())),
        Commands::Stop => Some((SHUTDOWN@, empty_object_view())),
        Commands::Init | Commands::Login => None,
    }
}

pub open spec fn pair_view(r: Option<(String, Json)>) -> Option<(Seq<char>, JsonView)> {
    match r {
        Some((m, p)) => Some((m@, p@)),
        None => None,
    }
}

fn empty_object() -> (r: Json)
    ensures
        r@ == empty_object_view(),
{
    let r = crate::protocol::object(Vec::new());
    assert(crate::protocol::pairs_view(Seq::<(String, Json)>::empty()) =~= Seq::empty());
    r
}

/// The method and parameters a command sends to the daemon.
pub fn line_request(cmd: &Commands) -> (r: Option<(String, Json)>)
    ensures
        pair_view(r) == line_request_spec(*cmd),
{
    match cmd {
        Commands::Me => Some((owned(GET_ME), empty_object())),
        Commands::Ls { limit } => Some((owned(LIST_DIALOGS), obj1("limit", Json::Int(*limit)))),
        Commands::Messages { chat, limit } => Some(
            (
                owned(GET_MESSAGES),
                obj2("chat_id", chat_id_from_str(chat.as_str()), "limit", Json::Int(*limit)),
            ),
        ),
        Commands::Send { chat, text } => Some(
            (
                owned(SEND_MESSAGE),
                obj2("chat_id", chat_id_from_str(chat.as_str()), "text", jstring(join_text(text))),
            ),
        ),
        Commands::Search { chat, query, limit } => Some(
            (
                owned(SEARCH),
                obj3(
                    "chat_id",
                    chat_id_from_str(chat.as_str()),
                    "query",
                    jstr(query.as_str()),
                    "limit",
                    Json::Int(*limit),
                ),
            ),
        ),
        Commands::Forward { from, to, msg_id } => Some(
            (
                owned(FORWARD_MESSAGE),
                obj3(
                    "from_chat_id",
                    chat_id_from_str(from.as_str()),
                    "to_chat_id",
                    chat_id_from_str(to.as_str()),
                    "message_id",
                    Json::Int(*msg_id),
                ),
            ),
        ),
        Commands::Delete { chat, msg_id } => Some(
            (
                owned(DELETE_MESSAGE),
                obj2("chat_id", chat_id_from_str(chat.as_str()), "message_id", Json::Int(*msg_id)),
            ),
        ),
        Commands::Download { chat, msg_id } => Some(
            (
                owned(DOWNLOAD_FILE),
                obj2("chat_id", chat_id_from_str(chat.as_str()), "message_id", Json::Int(*msg_id)),
            ),
        ),
        Commands::Read { chat } => Some(
            (owned(MARK_READ), obj1("chat_id", chat_id_from_str(chat.as_str()))),
        ),
        Commands::Status => Some((owned(GET_STATUS), empty_object())),
        Commands::Logout => Some((owned(LOGOUT), empty_object())),
        Commands::Stop => Some((owned(SHUTDOWN), empty_object())),
        Commands::Init | Commands::Login => None,
    }
}

/// A request line's object: `{"id": id, "method": method, "params": params}`.
pub open spec fn request_object_spec(id: i64, method: Seq<char>, params: JsonView) -> JsonView {
    JsonView::Object(
        seq![
            ("id"@, JsonView::Int(id)),
            ("method"@, JsonView::Str(method)),
            ("params"@, params),
        ],
    )
}

pub fn request_object(id: i64, method: &str, params: Json) -> (r: Json)
    ensures
        r@ == request_object_spec(id, method@, params@),
{
    obj3("id", Json::Int(id), "method", jstr(method), "params", params)
}

// ── Printing results ───────────────────────────────────────────────

pub open spec fn status_lines(result: JsonView) -> Seq<OutLineView> {
    seq![
        text(
            "Authorized : "@ + if as_bool(at(result, "authorized"@)) == Some(true) {
                "✅ yes"@
            } else {
                "❌ no"@
            },
        ),
        text("Socket     : "@ + str_or(as_str(at(result, "socket"@)), "?"@)),
    ]
}

pub fn print_status(result: &Json) -> (r: Vec<OutLine>)
    ensures
        lines_view(r@) == status_lines(result@),
{
    let auth = match opt_bool(at_ref(Some(result), "authorized")) {
        Some(b) => b,
        None => false,
    };
    let a = if auth {
        concat(owned("Authorized : "), "✅ yes")
    } else {
        concat(owned("Authorized : "), "❌ no")
    };
    let b = concat(owned("Socket     : "), str_field_or(result, "socket", "?").as_str());
    let mut out: Vec<OutLine> = Vec::new();
    out.push(OutLine::Text(a));
    out.push(OutLine::Text(b));
    assert(lines_view(out@) =~= status_lines(result@));
    out
}

pub open spec fn me_lines(result: JsonView) -> Seq<OutLineView> {
    seq![
        text(
            "👤  "@ + str_or(as_str(at(result, "first_name"@)), ""@) + " "@ + str_or(
                as_str(at(result, "last_name"@)),
                ""@,
            ) + " (@"@ + str_or(as_str(at(result, "username"@)), "?"@) + ")"@,
        ),
        text(
            "    ID: "@ + decimal(int_or_zero(at(result, "id"@)) as int) + "  Phone: +"@ + str_or(
                as_str(at(result, "phone_number"@)),
                "?"@,
            ),
        ),
    ]
}

pub fn print_me(result: &Json) -> (r: Vec<OutLine>)
    ensures
        lines_view(r@) == me_lines(result@),
{
    let first = str_field_or(result, "first_name", "");
    let last = str_field_or(result, "last_name", "");
    let username = str_field_or(result, "username", "?");
    let phone = str_field_or(result, "phone_number", "?");
    let id = i64_or_zero(at_ref(Some(result), "id"));
    let a = concat(owned("👤  "), first.as_str());
    let a = concat(a, " ");
    let a = concat(a, last.as_str());
    let a = concat(a, " (@");
    let a = concat(a, username.as_str());
    let a = concat(a, ")");
    let b = concat(owned("    ID: "), i64_to_string(id).as_str());
    let b = concat(b, "  Phone: +");
    let b = concat(b, phone.as_str());
    let mut out: Vec<OutLine> = Vec::new();
    out.push(OutLine::Text(a));
    out.push(OutLine::Text(b));
    assert(lines_view(out@) =~= me_lines(result@));
    out
}

pub open spec fn dialogs_header(n: int) -> Seq<char> {
    "📋  "@ + decimal(n) + " dialogs:\n"@
}

pub open spec fn dialogs_hint() -> Seq<char> {
    "\n  (Use `tg messages <id>` to view messages)"@
}

/// The chat ids of `chat_ids`, numbered, between a header and a hint.
pub open spec fn line_dialogs_lines(result: JsonView) -> Seq<OutLineView> {
    match get(result, "chat_ids"@) {
        Some(JsonView::Array(ids)) => seq![text(dialogs_header(ids.len() as int))] + Seq::new(
            ids.len(),
            |i: int| OutLineView::Value(item_prefix(i + 1), ids[i]),
        ) + seq![text(dialogs_hint())],
        _ => seq![text("(no dialogs)"@)],
    }
}

pub fn print_dialogs(result: &Json) -> (r: Vec<OutLine>)
    ensures
        lines_view(r@) == line_dialogs_lines(result@),
{
    let mut out: Vec<OutLine> = Vec::new();
    let ids = match result.get("chat_ids") {
        Some(v) => v.as_array(),
        None => None,
    };
    match ids {
        Some(ids) => {
            proof {
                lemma_items_view(ids@, ids@.len());
            }
            let ghost g = items_view(ids@, ids@.len());
            let header = concat(concat(owned("📋  "), usize_to_string(ids.len()).as_str()), " dialogs:\n");
            out.push(OutLine::Text(header));
            let mut i: usize = 0;
            while i < ids.len()
                invariant
                    i <= ids@.len(),
                    g == items_view(ids@, ids@.len()),
                    g.len() == ids@.len(),
                    forall|k: int| 0 <= k < ids@.len() ==> #[trigger] g[k] == ids@[k]@,
                    out@.len() == i + 1,
                    lines_view(out@) =~= seq![text(dialogs_header(ids@.len() as int))] + Seq::new(
                        i as nat,
                        |k: int| OutLineView::Value(item_prefix(k + 1), g[k]),
                    ),
                decreases ids.len() - i,
            {
                let p = item_prefix_exec(i + 1);
                let v = ids[i].clone();
                let ghost old_out = out@;
                out.push(OutLine::Value(p, v));
                proof {
                    assert(g[i as int] == ids@[i as int]@);
                    let tgt = seq![text(dialogs_header(ids@.len() as int))] + Seq::new(
                        (i + 1) as nat,
                        |k: int| OutLineView::Value(item_prefix(k + 1), g[k]),
                    );
                    let prev = seq![text(dialogs_header(ids@.len() as int))] + Seq::new(
                        i as nat,
                        |k: int| OutLineView::Value(item_prefix(k + 1), g[k]),
                    );
                    assert forall|k: int| 0 <= k < i + 2 implies lines_view(out@)[k] == tgt[k] by {
                        if k < i + 1 {
                            assert(out@[k] == old_out[k]);
                            assert(lines_view(old_out)[k] == prev[k]);
                        }
                    }
                    assert(lines_view(out@) =~= tgt);
                }
                i = i + 1;
            }
            let ghost before = out@;
            out.push(OutLine::Text(owned("\n  (Use `tg messages <id>` to view messages)")));
            proof {
                let body = seq![text(dialogs_header(ids@.len() as int))] + Seq::new(
                    ids@.len(),
                    |k: int| OutLineView::Value(item_prefix(k + 1), g[k]),
                );
                assert forall|k: int| 0 <= k < before.len() implies lines_view(out@)[k] == body[k] by {
                    assert(out@[k] == before[k]);
                    assert(lines_view(before)[k] == body[k]);
                }
                assert(lines_view(out@) =~= body + seq![text(dialogs_hint())]);
                assert(result@ matches JsonView::Object(_));
            }
            out
        },
        None => {
            out.push(OutLine::Text(owned("(no dialogs)")));
            assert(lines_view(out@) =~= seq![text("(no dialogs)"@)]);
            out
        },
    }
}

/// A message's text: its text, else its caption, else `[media]`.
pub open spec fn line_message_body(m: JsonView) -> Seq<char> {
    match as_str(at(at(at(m, "content"@), "text"@), "text"@)) {
        Some(t) => t,
        None => str_or(as_str(at(at(at(m, "content"@), "caption"@), "text"@)), "[media]"@),
    }
}

/// The heading and text lines of one message.
pub open spec fn line_message_pair(m: JsonView) -> (Seq<char>, Seq<char>) {
    message_pair(
        int_or_zero(at(m, "id"@)),
        match as_i64(at(at(m, "sender_id"@), "user_id"@)) {
            Some(u) => user_label(u),
            None => "system"@,
        },
        line_message_body(m),
        int_or_zero(at(m, "date"@)),
    )
}

/// The messages of `messages`, oldest first (the daemon lists them newest first).
pub open spec fn line_messages_lines(result: JsonView) -> Seq<OutLineView> {
    match get(result, "messages"@) {
        Some(JsonView::Array(ms)) => flatten_spaced(
            Seq::new(ms.len(), |i: int| line_message_pair(ms[ms.len() - 1 - i])),
        ),
        _ => seq![text("(no messages)"@)],
    }
}

pub open spec fn line_dated(m: JsonView) -> bool {
    0 <= int_or_zero(at(m, "date"@)) <= MAX_TIMESTAMP
}

/// Every listed message has a date that can be printed.
pub open spec fn line_messages_printable(result: JsonView) -> bool {
    match get(result, "messages"@) {
        Some(JsonView::Array(ms)) => forall|k: int| 0 <= k < ms.len() ==> #[trigger] line_dated(ms[k]),
        _ => true,
    }
}

proof fn lemma_line_printable(r: JsonView, g: Seq<JsonView>)
    requires
        line_messages_printable(r),
        get(r, "messages"@) == Some(JsonView::Array(g)),
    ensures
        forall|k: int| 0 <= k < g.len() ==> #[trigger] line_dated(g[k]),
{
    assert forall|k: int| 0 <= k < g.len() implies #[trigger] line_dated(g[k]) by {
        let mv = get(r, "messages"@)->Some_0;
        assert(mv->Array_0 == g);
        assert(mv->Array_0[k] == g[k]);
    }
}

fn line_message_pair_exec(m: &Json) -> (r: (String, String))
    requires
        line_dated(m@),
    ensures
        (r.0@, r.1@) == line_message_pair(m@),
{
    let mm = Some(m);
    let id = i64_or_zero(at_ref(mm, "id"));
    let sender = match opt_i64(at_ref(at_ref(mm, "sender_id"), "user_id")) {
        Some(u) => user_label_exec(u),
        None => owned("system"),
    };
    let content = at_ref(mm, "content");
    let body = match opt_str(at_ref(at_ref(content, "text"), "text")) {
        Some(t) => t.clone(),
        None => match opt_str(at_ref(at_ref(content, "caption"), "text")) {
            Some(t) => t.clone(),
            None => owned("[media]"),
        },
    };
    let ts = i64_or_zero(at_ref(mm, "date"));
    message_pair_exec(id, sender, body, ts)
}

pub fn print_messages(result: &Json) -> (r: Vec<OutLine>)
    requires
        line_messages_printable(result@),
    ensures
        lines_view(r@) == line_messages_lines(result@),
{
    let mut out: Vec<OutLine> = Vec::new();
    let ms = match result.get("messages") {
        Some(v) => v.as_array(),
        None => None,
    };
    match ms {
        Some(ms) => {
            proof {
                lemma_items_view(ms@, ms@.len());
            }
            let ghost g = items_view(ms@, ms@.len());
            assert(get(result@, "messages"@) == Some(JsonView::Array(g)));
            proof {
                lemma_line_printable(result@, g);
            }
            let n = ms.len();
            let mut i: usize = 0;
            assert(lines_view(out@) =~= flatten_spaced(
                Seq::new(0, |k: int| line_message_pair(g[n - 1 - k])),
            ));
            while i < n
                invariant
                    n == ms@.len(),
                    i <= n,
                    g == items_view(ms@, ms@.len()),
                    g.len() == n,
                    forall|k: int| 0 <= k < n ==> #[trigger] g[k] == ms@[k]@,
                    forall|k: int| 0 <= k < g.len() ==> #[trigger] line_dated(g[k]),
                    lines_view(out@) =~= flatten_spaced(
                        Seq::new(i as nat, |k: int| line_message_pair(g[n - 1 - k])),
                    ),
                decreases n - i,
            {
                let j = n - 1 - i;
                assert(g[j as int] == ms@[j as int]@);
                assert(line_dated(g[j as int]));
                let p = line_message_pair_exec(&ms[j]);
                push_spaced(
                    &mut out,
                    p,
                    Ghost(Seq::new(i as nat, |k: int| line_message_pair(g[n - 1 - k]))),
                );
                assert(Seq::new(i as nat, |k: int| line_message_pair(g[n - 1 - k])).push(
                    line_message_pair(g[j as int]),
                ) =~= Seq::new((i + 1) as nat, |k: int| line_message_pair(g[n - 1 - k])));
                i = i + 1;
            }
            out
        },
        None => {
            out.push(OutLine::Text(owned("(no messages)")));
            assert(lines_view(out@) =~= seq![text("(no messages)"@)]);
            out
        },
    }
}

pub open spec fn send_lines(result: JsonView) -> Seq<OutLineView> {
    seq![text("✅  Sent (message #"@ + decimal(int_or_zero(at(result, "id"@)) as int) + ")"@)]
}

pub fn print_send(result: &Json) -> (r: Vec<OutLine>)
    ensures
        lines_view(r@) == send_lines(result@),
{
    let id = i64_or_zero(at_ref(Some(result), "id"));
    one_line(concat(concat(owned("✅  Sent (message #"), i64_to_string(id).as_str()), ")"))
}

pub open spec fn download_lines(result: JsonView) -> Seq<OutLineView> {
    seq![text("✅  Downloaded to "@ + str_or(as_str(at(at(result, "local"@), "path"@)), "?"@))]
}

pub fn print_download(result: &Json) -> (r: Vec<OutLine>)
    ensures
        lines_view(r@) == download_lines(result@),
{
    let p = match opt_str(at_ref(at_ref(Some(result), "local"), "path")) {
        Some(s) => s.clone(),
        None => owned("?"),
    };
    one_line(concat(owned("✅  Downloaded to "), p.as_str()))
}

/// The lines a command prints for the daemon's result.
pub open spec fn line_result_lines(cmd: Commands, result: JsonView) -> Seq<OutLineView> {
    match cmd {
        Commands::Status => status_lines(result),
        Commands::Me => me_lines(result),
        Commands::Ls { .. } => line_dialogs_lines(result),
        Commands::Messages { .. } | Commands::Search { .. } => line_messages_lines(result),
        Commands::Send { .. } => send_lines(result),
        Commands::Download { .. } => download_lines(result),
        Commands::Forward { .. } | Commands::Delete { .. } | Commands::Read { .. }
        | Commands::Logout | Commands::Stop => seq![text("✅  Done."@)],
        Commands::Init | Commands::Login => Seq::empty(),
    }
}

pub open spec fn line_result_printable(cmd: Commands, result: JsonView) -> bool {
    (cmd is Messages || cmd is Search) ==> line_messages_printable(result)
}

pub fn print_result(cmd: &Commands, result: &Json) -> (r: Vec<OutLine>)
    requires
        line_result_printable(*cmd, result@),
    ensures
        lines_view(r@) == line_result_lines(*cmd, result@),
{
    match cmd {
        Commands::Status => print_status(result),
        Commands::Me => print_me(result),
        Commands::Ls { .. } => print_dialogs(result),
        Commands::Messages { .. } | Commands::Search { .. } => print_messages(result),
        Commands::Send { .. } => print_send(result),
        Commands::Download { .. } => print_download(result),
        Commands::Forward { .. } | Commands::Delete { .. } | Commands::Read { .. }
        | Commands::Logout | Commands::Stop => one_line(owned("✅  Done.")),
        Commands::Init | Commands::Login => {
            let v: Vec<OutLine> = Vec::new();
            assert(lines_view(v@) =~= Seq::empty());
            v
        },
    }
}

// ── The first answer ───────────────────────────────────────────────

/// What the client does with the first line the daemon answers.
#[derive(Debug, PartialEq)]
pub enum Reply {
    /// Print these lines on standard output.
    Lines(Vec<OutLine>),
    /// Print `❌  ` and this value (the error's `message`) on standard error.
    Failed(Json),
    /// Print the whole answer as pretty JSON.
    Pretty,
}

pub enum ReplyView {
    Lines(Seq<OutLineView>),
    Failed(JsonView),
    Pretty,
}

impl View for Reply {
    type V = ReplyView;

    open spec fn view(&self) -> ReplyView {
        match self {
            Reply::Lines(v) => ReplyView::Lines(lines_view(v@)),
            Reply::Failed(j) => ReplyView::Failed(j@),
            Reply::Pretty => ReplyView::Pretty,
        }
    }
}

pub open spec fn reply_spec(cmd: Commands, resp: JsonView) -> ReplyView {
    match as_str(at(resp, "type"@)) {
        Some(tp) => if tp == "auth_state"@ {
            ReplyView::Lines(
                seq![text("🔐  Auth state: "@ + str_or(as_str(at(resp, "state"@)), "unknown"@))],
            )
        } else if tp == "response"@ {
            match get(resp, "error"@) {
                Some(err) => ReplyView::Failed(at(err, "message"@)),
                None => match get(resp, "result"@) {
                    Some(result) => ReplyView::Lines(line_result_lines(cmd, result)),
                    None => ReplyView::Lines(Seq::empty()),
                },
            }
        } else {
            ReplyView::Pretty
        },
        None => ReplyView::Pretty,
    }
}

/// The result of a successful response can be printed for the command.
pub open spec fn reply_printable(cmd: Commands, resp: JsonView) -> bool {
    (as_str(at(resp, "type"@)) == Some("response"@) && get(resp, "error"@) is None) ==> match get(
        resp,
        "result"@,
    ) {
        Some(result) => line_result_printable(cmd, result),
        None => true,
    }
}

/// Decides what to print for the daemon's first answer to a command.
pub fn first_reply(cmd: &Commands, resp: &Json) -> (r: Reply)
    requires
        reply_printable(*cmd, resp@),
    ensures
        r@ == reply_spec(*cmd, resp@),
{
    let rr = Some(resp);
    match opt_str(at_ref(rr, "type")) {
        Some(tp) => {
            if str_eq(tp.as_str(), "auth_state") {
                let state = match opt_str(at_ref(rr, "state")) {
                    Some(s) => s.clone(),
                    None => owned("unknown"),
                };
                Reply::Lines(one_line(concat(owned("🔐  Auth state: "), state.as_str())))
            } else if str_eq(tp.as_str(), "response") {
                match resp.get("error") {
                    Some(err) => {
                        let m = match at_ref(Some(err), "message") {
                            Some(v) => v.clone(),
                            None => Json::Null,
                        };
                        Reply::Failed(m)
                    },
                    None => match resp.get("result") {
                        Some(result) => Reply::Lines(print_result(cmd, result)),
                        None => {
                            let v: Vec<OutLine> = Vec::new();
                            assert(lines_view(v@) =~= Seq::empty());
                            Reply::Lines(v)
                        },
                    },
                }
            } else {
                Reply::Pretty
            }
        },
        None => Reply::Pretty,
    }
}

// ── Login ──────────────────────────────────────────────────────────

/// What the login flow does with a line from the daemon.
#[derive(Debug, PartialEq)]
pub enum LineLoginStep {
    /// Not an authorization state: keep reading.
    Ignore,
    /// Logged in: stop.
    Done,
    /// Print `prompt`, read an answer and send it as request `id` with
    /// method `method` and the answer under `param`.
    Ask { prompt: String, id: i64, method: String, param: String },
    /// Print this line and keep reading.
    Show(String),
}

pub enum LineLoginView {
    Ignore,
    Done,
    Ask { prompt: Seq<char>, id: i64, method: Seq<char>, param: Seq<char> },
    Show(Seq<char>),
}

impl View for LineLoginStep {
    type V = LineLoginView;

    open spec fn view(&self) -> LineLoginView {
        match self {
            LineLoginStep::Ignore => LineLoginView::Ignore,
            LineLoginStep::Done => LineLoginView::Done,
            LineLoginStep::Ask { prompt, id, method, param } => LineLoginView::Ask {
                prompt: prompt@,
                id: *id,
                method: method@,
                param: param@,
            },
            LineLoginStep::Show(s) => LineLoginView::Show(s@),
        }
    }
}

pub open spec fn line_login_spec(msg: JsonView) -> LineLoginView {
    if as_str(at(msg, "type"@)) == Some("auth_state"@) {
        let state = str_or(as_str(at(msg, "state"@)), "unknown"@);
        if state == "ready"@ {
            LineLoginView::Done
        } else if state == "wait_code"@ {
            LineLoginView::Ask {
                prompt: "📱  Enter the code you received: "@,
                id: 2,
                method: AUTH_CODE@,
                param: "code"@,
            }
        } else if state == "wait_password"@ {
            LineLoginView::Ask {
                prompt: "🔒  Enter 2FA password: "@,
                id: 3,
                method: AUTH_PASSWORD@,
                param: "password"@,
            }
        } else if state == "wait_phone"@ {
            LineLoginView::Ask {
                prompt: "📱  Enter phone number: "@,
                id: 4,
                method: AUTH_PHONE@,
                param: "phone"@,
            }
        } else {
            LineLoginView::Show("   Auth state: "@ + state)
        }
    } else {
        LineLoginView::Ignore
    }
}

/// Decides what the login flow does with a line from the daemon.
pub fn line_login_step(msg: &Json) -> (r: LineLoginStep)
    ensures
        r@ == line_login_spec(msg@),
{
    let mm = Some(msg);
    let is_auth = match opt_str(at_ref(mm, "type")) {
        Some(t) => str_eq(t.as_str(), "auth_state"),
        None => false,
    };
    if !is_auth {
        return LineLoginStep::Ignore;
    }
    let state = match opt_str(at_ref(mm, "state")) {
        Some(s) => s.clone(),
        None => owned("unknown"),
    };
    if str_eq(state.as_str(), "ready") {
        LineLoginStep::Done
    } else if str_eq(state.as_str(), "wait_code") {
        LineLoginStep::Ask {
            prompt: owned("📱  Enter the code you received: "),
            id: 2,
            method: owned(AUTH_CODE),
            param: owned("code"),
        }
    } else if str_eq(state.as_str(), "wait_password") {
        LineLoginStep::Ask {
            prompt: owned("🔒  Enter 2FA password: "),
            id: 3,
            method: owned(AUTH_PASSWORD),
            param: owned("password"),
        }
    } else if str_eq(state.as_str(), "wait_phone") {
        LineLoginStep::Ask {
            prompt: owned("📱  Enter phone number: "),
            id: 4,
            method: owned(AUTH_PHONE),
            param: owned("phone"),
        }
    } else {
        LineLoginStep::Show(concat(owned("   Auth state: "), state.as_str()))
    }
}

/// The request that carries the user's answer.
pub fn line_login_answer(id: i64, method: &str, param: &str, answer: &str) -> (r: Json)
    ensures
        r@ == request_object_spec(
            id,
            method@,
            JsonView::Object(seq![(param@, JsonView::Str(answer@))]),
        ),
{
    request_object(id, method, obj1(param, jstr(answer)))
}

/// The status request the login flow starts with.
pub fn login_status_request() -> (r: Json)
    ensures
        r@ == request_object_spec(1, GET_STATUS@, empty_object_view()),
{
    request_object(1, GET_STATUS, empty_object())
}

/// The status answer says the session is already authorized.
pub open spec fn already_logged_in_spec(resp: JsonView) -> bool {
    match get(resp, "result"@) {
        Some(result) => as_bool(at(result, "authorized"@)) == Some(true),
        None => false,
    }
}

pub fn already_logged_in(resp: &Json) -> (r: bool)
    ensures
        r == already_logged_in_spec(resp@),
{
    match resp.get("result") {
        Some(result) => match opt_bool(at_ref(Some(result), "authorized")) {
            Some(b) => b,
            None => false,
        },
        None => false,
    }
}

// ── Laws ───────────────────────────────────────────────────────────

/// Each state that asks for input is answered with the matching auth
/// method, under its own request id, and `ready` ends the login; a line that
/// is not an authorization state is ignored.
pub proof fn lemma_line_login_answers(msg: JsonView)
    ensures
        as_str(at(msg, "type"@)) != Some("auth_state"@) ==> line_login_spec(msg) == LineLoginView::Ignore,
        as_str(at(msg, "type"@)) == Some("auth_state"@) ==> {
            let state = str_or(as_str(at(msg, "state"@)), "unknown"@);
            &&& state == "ready"@ ==> line_login_spec(msg) == LineLoginView::Done
            &&& state == "wait_code"@ ==> (line_login_spec(msg) matches LineLoginView::Ask { id, method, .. } && id == 2 && method == AUTH_CODE@)
            &&& state == "wait_password"@ ==> (line_login_spec(msg) matches LineLoginView::Ask { id, method, .. } && id == 3 && method == AUTH_PASSWORD@)
            &&& state == "wait_phone"@ ==> (line_login_spec(msg) matches LineLoginView::Ask { id, method, .. } && id == 4 && method == AUTH_PHONE@)
        },
{
    reveal_strlit("ready");
    reveal_strlit("wait_phone");
    reveal_strlit("wait_code");
    reveal_strlit("wait_password");
    assert("ready"@.len() == 5);
    assert("wait_phone"@.len() == 10);
    assert("wait_code"@.len() == 9);
    assert("wait_password"@.len() == 13);
}


/// The request for a listing or a search names the chat as the user wrote
/// it (a number as a chat id, anything else as written) and carries exactly
/// the limit and query the user gave; forwarding keeps source, destination
/// and message apart.
pub proof fn lemma_requests_carry_arguments(cmd: Commands)
    ensures
        cmd matches Commands::Ls { limit } ==> (line_request_spec(cmd) matches Some((m, p)) && m == LIST_DIALOGS@
            && at(p, "limit"@) == JsonView::Int(limit)),
        cmd matches Commands::Messages { chat, limit } ==> (line_request_spec(cmd) matches Some((m, p)) && m
            == GET_MESSAGES@ && at(p, "chat_id"@) == chat_value(chat@) && at(p, "limit"@) == JsonView::Int(
            limit,
        )),
        cmd matches Commands::Search { chat, query, limit } ==> (line_request_spec(cmd) matches Some((m, p)) && m
            == SEARCH@ && at(p, "chat_id"@) == chat_value(chat@) && at(p, "query"@) == JsonView::Str(
            query@,
        ) && at(p, "limit"@) == JsonView::Int(limit)),
        cmd matches Commands::Forward { from, to, msg_id } ==> (line_request_spec(cmd) matches Some((m, p)) && m
            == FORWARD_MESSAGE@ && at(p, "from_chat_id"@) == chat_value(from@) && at(p, "to_chat_id"@)
            == chat_value(to@) && at(p, "message_id"@) == JsonView::Int(msg_id)),
{
    reveal_strlit("chat_id");
    reveal_strlit("limit");
    reveal_strlit("query");
    reveal_strlit("from_chat_id");
    reveal_strlit("to_chat_id");
    reveal_strlit("message_id");
    assert("limit"@[0] != "query"@[0]);
    assert("message_id"@[0] != "to_chat_id"@[0]);
    match cmd {
        Commands::Ls { limit } => {
            let fs = seq![("limit"@, JsonView::Int(limit))];
            crate::json::lemma_find_field_index(fs, "limit"@, 0);
        },
        Commands::Messages { chat, limit } => {
            let fs = seq![("chat_id"@, chat_value(chat@)), ("limit"@, JsonView::Int(limit))];
            assert(fs[0].0 == "chat_id"@ && fs[1].0 == "limit"@);
            crate::json::lemma_find_field_index(fs, "chat_id"@, 0);
            crate::json::lemma_find_field_index(fs, "limit"@, 1);
        },
        Commands::Search { chat, query, limit } => {
            let fs = seq![
                ("chat_id"@, chat_value(chat@)),
                ("query"@, JsonView::Str(query@)),
                ("limit"@, JsonView::Int(limit)),
            ];
            assert(fs[0].0 == "chat_id"@ && fs[1].0 == "query"@ && fs[2].0 == "limit"@);
            crate::json::lemma_find_field_index(fs, "chat_id"@, 0);
            crate::json::lemma_find_field_index(fs, "query"@, 1);
            crate::json::lemma_find_field_index(fs, "limit"@, 2);
        },
        Commands::Forward { from, to, msg_id } => {
            let fs = seq![
                ("from_chat_id"@, chat_value(from@)),
                ("to_chat_id"@, chat_value(to@)),
                ("message_id"@, JsonView::Int(msg_id)),
            ];
            assert(fs[0].0 == "from_chat_id"@ && fs[1].0 == "to_chat_id"@ && fs[2].0 == "message_id"@);
            crate::json::lemma_find_field_index(fs, "from_chat_id"@, 0);
            crate::json::lemma_find_field_index(fs, "to_chat_id"@, 1);
            crate::json::lemma_find_field_index(fs, "message_id"@, 2);
        },
        _ => {},
    }
}

} // verus!
