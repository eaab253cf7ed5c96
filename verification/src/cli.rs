//! The `tg` command line: which request each command sends, how a chat is
//! named on the command line, the interactive login, and how a call waits
//! for its own response among the messages the daemon pushes.

use vstd::prelude::*;
use crate::json::{Json, JsonView, at};
use crate::protocol::{
    outcome_message, obj1, obj2, obj3, jstr, jstring, ServerMessage, ServerMessageView, GET_ME, LIST_DIALOGS,
    GET_MESSAGES, SEND_MESSAGE, SEARCH, FORWARD_MESSAGE, DELETE_MESSAGE, DOWNLOAD_FILE, MARK_READ,
    GET_STATUS, LOGOUT, AUTH_PHONE, AUTH_CODE, AUTH_PASSWORD,
};
use crate::text::{owned, concat, str_eq, decimal, digits, digit_char, i64_to_string, push_char};

verus! {

// ── Integers on the command line ───────────────────────────────────

pub open spec fn is_digit(c: char) -> bool {
    '0' <= c && c <= '9'
}

pub open spec fn all_digits(s: Seq<char>) -> bool {
    forall|i: int| 0 <= i < s.len() ==> is_digit(#[trigger] s[i])
}

/// The number that a string of decimal digits denotes.
pub open spec fn digits_value(s: Seq<char>) -> int
    decreases s.len(),
{
    if s.len() == 0 {
        0
    } else {
        digits_value(s.drop_last()) * 10 + (s.last() as int - '0' as int)
    }
}

/// What `str::parse::<i64>` accepts: an optional `+` or `-`, then one or
/// more ASCII digits, denoting a value in the range of `i64`.
pub open spec fn parse_i64_spec(s: Seq<char>) -> Option<i64> {
    let neg = s.len() > 0 && s[0] == '-';
    let body = if s.len() > 0 && (s[0] == '-' || s[0] == '+') {
        s.drop_first()
    } else {
        s
    };
    if body.len() == 0 || !all_digits(body) {
        None
    } else {
        let v = if neg {
            -digits_value(body)
        } else {
            digits_value(body)
        };
        if i64::MIN <= v <= i64::MAX {
            Some(v as i64)
        } else {
            None
        }
    }
}

proof fn lemma_digits_value_mono(s: Seq<char>, i: int, j: int)
    requires
        0 <= i <= j <= s.len(),
        all_digits(s),
    ensures
        digits_value(s.take(i)) <= digits_value(s.take(j)),
    decreases j - i,
{
    if i < j {
        lemma_digits_value_mono(s, i, j - 1);
        assert(s.take(j).drop_last() =~= s.take(j - 1));
        assert(is_digit(s[j - 1]));
        assert(digits_value(s.take(j - 1)) >= 0) by {
            lemma_digits_value_nonneg(s.take(j - 1));
        }
    }
}

proof fn lemma_digits_value_nonneg(s: Seq<char>)
    requires
        all_digits(s),
    ensures
        digits_value(s) >= 0,
    decreases s.len(),
{
    if s.len() > 0 {
        assert(all_digits(s.drop_last()));
        lemma_digits_value_nonneg(s.drop_last());
        assert(is_digit(s[s.len() - 1]));
    }
}

/// Parses a decimal `i64` as `str::parse::<i64>` does.
pub fn parse_i64(s: &str) -> (r: Option<i64>)
    ensures
        r == parse_i64_spec(s@),
{
    let n = s.unicode_len();
    if n == 0 {
        return None;
    }
    let first = s.get_char(0);
    let neg = first == '-';
    let start: usize = if first == '-' || first == '+' {
        1
    } else {
        0
    };
    let ghost body = if s@.len() > 0 && (s@[0] == '-' || s@[0] == '+') {
        s@.drop_first()
    } else {
        s@
    };
    assert(body =~= s@.subrange(start as int, n as int));
    if start == n {
        return None;
    }
    let limit: u64 = 9223372036854775808u64;
    let mut acc: u64 = 0;
    let mut i: usize = start;
    while i < n
        invariant
            n == s@.len(),
            start <= i <= n,
            start < n,
            body == s@.subrange(start as int, n as int),
            body == (if s@.len() > 0 && (s@[0] == '-' || s@[0] == '+') {
                s@.drop_first()
            } else {
                s@
            }),
            neg == (s@.len() > 0 && s@[0] == '-'),
            acc as int == digits_value(body.take(i - start)),
            acc <= limit,
            limit == 9223372036854775808u64,
            forall|k: int| 0 <= k < i - start ==> is_digit(#[trigger] body[k]),
        decreases n - i,
    {
        let c = s.get_char(i);
        assert(body[i - start] == s@[i as int]);
        if !('0' <= c && c <= '9') {
            assert(!is_digit(body[i - start]));
            assert(!all_digits(body));
            return None;
        }
        let d = (c as u32 - '0' as u32) as u64;
        assert(body.take(i - start + 1).drop_last() =~= body.take(i - start));
        assert(body.take(i - start + 1).last() == c);
        if acc > (limit - d) / 10 {
            proof {
                assert(digits_value(body.take(i - start + 1)) == acc * 10 + d);
                assert(acc * 10 + d > limit) by (nonlinear_arith)
                    requires
                        acc > (limit - d) / 10,
                        d <= 9,
                        limit == 9223372036854775808,
                ;
                // Every digit from here on only makes the value larger.
                if exists|k: int| i - start <= k < body.len() && !is_digit(#[trigger] body[k]) {
                } else {
                    assert(all_digits(body));
                    lemma_digits_value_mono(body, i - start + 1, body.len() as int);
                    assert(body.take(body.len() as int) =~= body);
                }
            }
            return None;
        }
        acc = acc * 10 + d;
        i = i + 1;
    }
    assert(body.take(n - start) =~= body);
    assert(all_digits(body));
    if neg {
        if acc == limit {
            Some(-9223372036854775807i64 - 1)
        } else {
            Some(-(acc as i64))
        }
    } else {
        if acc == limit {
            None
        } else {
            Some(acc as i64)
        }
    }
}

/// A chat on the command line: its numeric id, or a name such as `@user`.
pub open spec fn chat_value(s: Seq<char>) -> JsonView {
    match parse_i64_spec(s) {
        Some(id) => JsonView::Int(id),
        None => JsonView::Str(s),
    }
}

/// Parses a chat argument: numbers are chat ids, anything else is sent as written.
pub fn parse_chat(s: &str) -> (r: Json)
    ensures
        r@ == chat_value(s@),
{
    match parse_i64(s) {
        Some(id) => Json::Int(id),
        None => jstr(s),
    }
}

// ── Commands ───────────────────────────────────────────────────────

/// The commands of `tg`.
#[derive(Debug, PartialEq)]
pub enum Command {
    Init,
    Login,
    Me,
    Chats { limit: i64 },
    History { chat: String, limit: i64 },
    Send { chat: String, text: Vec<String> },
    Search { chat: String, query: String, limit: i64 },
    Forward { from: String, to: String, msg_id: i64 },
    Delete { chat: String, msg_id: i64 },
    Download { file_id: i64 },
    Read { chat: String },
    Status,
    Logout,
    Stop,
    Tui,
}

/// Words joined with single spaces.
pub open spec fn join_words(ws: Seq<Seq<char>>) -> Seq<char>
    decreases ws.len(),
{
    if ws.len() == 0 {
        Seq::empty()
    } else if ws.len() == 1 {
        ws[0]
    } else {
        join_words(ws.drop_last()) + seq![' '] + ws.last()
    }
}

pub fn join_text(words: &Vec<String>) -> (r: String)
    ensures
        r@ == join_words(words@.map_values(|w: String| w@)),
{
    let ghost ws = words@.map_values(|w: String| w@);
    let mut out = String::new();
    let mut i: usize = 0;
    while i < words.len()
        invariant
            i <= words@.len(),
            ws == words@.map_values(|w: String| w@),
            out@ == join_words(ws.take(i as int)),
        decreases words.len() - i,
    {
        if i > 0 {
            push_char(&mut out, ' ');
        }
        out = concat(out, words[i].as_str());
        proof {
            assert(ws.take(i + 1).drop_last() =~= ws.take(i as int));
            assert(ws.take(i + 1).last() == words@[i as int]@);
            if i == 0 {
                assert(ws.take(1) =~= seq![words@[0]@]);
            }
        }
        i = i + 1;
    }
    assert(ws.take(words@.len() as int) =~= ws);
    out
}

/// The request a command sends to the daemon; `None` for the commands that
/// run locally (init, login, tui, stop).
pub open spec fn command_request_spec(cmd: Command) -> Option<(Seq<char>, JsonView)> {
    match cmd {
        Command::Me => Some((GET_ME@, JsonView::Object(Seq::empty()))),
        Command::Chats { limit } => Some(
            (LIST_DIALOGS@, JsonView::Object(seq![("limit"@, JsonView::Int(limit))])),
        ),
        Command::History { chat, limit } => Some(
            (
                GET_MESSAGES@,
                JsonView::Object(
                    seq![("chat_id"@, chat_value(chat@)), ("limit"@, JsonView::Int(limit))],
                ),
            ),
        ),
        Command::Send { chat, text } => Some(
            (
                SEND_MESSAGE@,
                JsonView::Object(
                    seq![
                        ("chat_id"@, chat_value(chat@)),
                        ("text"@, JsonView::Str(join_words(text@.map_values(|w: String| w@)))),
                    ],
                ),
            ),
        ),
        Command::Search { chat, query, limit } => Some(
            (
                SEARCH@,
                JsonView::Object(
                    seq![
                        ("chat_id"@, chat_value(chat@)),
                        ("query"@, JsonView::Str(query@)),
                        ("limit"@, JsonView::Int(limit)),
                    ],
                ),
            ),
        ),
        Command::Forward { from, to, msg_id } => Some(
            (
                FORWARD_MESSAGE@,
                JsonView::Object(
                    seq![
                        ("from_chat_id"@, chat_value(from@)),
                        ("to_chat_id"@, chat_value(to@)),
                        ("message_id"@, JsonView::Int(msg_id)),
                    ],
                ),
            ),
        ),
        Command::Delete { chat, msg_id } => Some(
            (
                DELETE_MESSAGE@,
                JsonView::Object(
                    seq![("chat_id"@, chat_value(chat@)), ("message_id"@, JsonView::Int(msg_id))],
                ),
            ),
        ),
        Command::Download { file_id } => Some(
            (DOWNLOAD_FILE@, JsonView::Object(seq![("file_id"@, JsonView::Int(file_id))])),
        ),
        Command::Read { chat } => Some(
            (MARK_READ@, JsonView::Object(seq![("chat_id"@, chat_value(chat@))])),
        ),
        Command::Status => Some((GET_STATUS@, JsonView::Object(Seq::empty()))),
        Command::Logout => Some((LOGOUT@, JsonView::Object(Seq::empty()))),
        _ => None,
    }
}

pub open spec fn request_view(r: Option<(String, Json)>) -> Option<(Seq<char>, JsonView)> {
    match r {
        Some((m, p)) => Some((m@, p@)),
        None => None,
    }
}

fn empty_object() -> (r: Json)
    ensures
        r@ == JsonView::Object(Seq::empty()),
{
    let r = crate::protocol::object(Vec::new());
    assert(crate::protocol::pairs_view(Seq::<(String, Json)>::empty()) =~= Seq::empty());
    r
}

/// The method and parameters a command sends to the daemon.
pub fn command_request(cmd: &Command) -> (r: Option<(String, Json)>)
    ensures
        request_view(r) == command_request_spec(*cmd),
{
    match cmd {
        Command::Me => Some((owned(GET_ME), empty_object())),
        Command::Chats { limit } => Some((owned(LIST_DIALOGS), obj1("limit", Json::Int(*limit)))),
        Command::History { chat, limit } => Some(
            (
                owned(GET_MESSAGES),
                obj2("chat_id", parse_chat(chat.as_str()), "limit", Json::Int(*limit)),
            ),
        ),
        Command::Send { chat, text } => Some(
            (
                owned(SEND_MESSAGE),
                obj2("chat_id", parse_chat(chat.as_str()), "text", jstring(join_text(text))),
            ),
        ),
        Command::Search { chat, query, limit } => Some(
            (
                owned(SEARCH),
                obj3(
                    "chat_id",
                    parse_chat(chat.as_str()),
                    "query",
                    jstr(query.as_str()),
                    "limit",
                    Json::Int(*limit),
                ),
            ),
        ),
        Command::Forward { from, to, msg_id } => Some(
            (
                owned(FORWARD_MESSAGE),
                obj3(
                    "from_chat_id",
                    parse_chat(from.as_str()),
                    "to_chat_id",
                    parse_chat(to.as_str()),
                    "message_id",
                    Json::Int(*msg_id),
                ),
            ),
        ),
        Command::Delete { chat, msg_id } => Some(
            (
                owned(DELETE_MESSAGE),
                obj2("chat_id", parse_chat(chat.as_str()), "message_id", Json::Int(*msg_id)),
            ),
        ),
        Command::Download { file_id } => Some(
            (owned(DOWNLOAD_FILE), obj1("file_id", Json::Int(*file_id))),
        ),
        Command::Read { chat } => Some((owned(MARK_READ), obj1("chat_id", parse_chat(chat.as_str())))),
        Command::Status => Some((owned(GET_STATUS), empty_object())),
        Command::Logout => Some((owned(LOGOUT), empty_object())),
        _ => None,
    }
}

// ── Waiting for a response ─────────────────────────────────────────

/// What a call does with a message while it waits for response `id`.
#[derive(Debug, PartialEq)]
pub enum CallStep {
    /// Not the response: keep reading.
    Skip,
    /// The response: its result (`null` where there is none), or the error text.
    Done(Result<Json, String>),
}

pub open spec fn call_step_view(c: CallStep) -> Option<Result<JsonView, Seq<char>>> {
    match c {
        CallStep::Skip => None,
        CallStep::Done(Ok(v)) => Some(Ok(v@)),
        CallStep::Done(Err(e)) => Some(Err(e@)),
    }
}

/// The error text of a failed call: `RPC error <code>: <message>`.
pub open spec fn rpc_error_text(code: i32, message: Seq<char>) -> Seq<char> {
    "RPC error "@ + decimal(code as int) + ": "@ + message
}

pub open spec fn call_step_spec(m: ServerMessageView, id: Seq<char>) -> Option<Result<JsonView, Seq<char>>> {
    match m {
        ServerMessageView::Response { id: rid, result, error } => if rid == id {
            match error {
                Some((code, message)) => Some(Err(rpc_error_text(code, message))),
                None => match result {
                    Some(v) => Some(Ok(v)),
                    None => Some(Ok(JsonView::Null)),
                },
            }
        } else {
            None
        },
        _ => None,
    }
}

/// Decides what a call waiting for response `id` does with message `m`.
pub fn call_step(m: ServerMessage, id: &str) -> (r: CallStep)
    ensures
        call_step_view(r) == call_step_spec(m@, id@),
{
    match m {
        ServerMessage::Response(resp) => {
            if str_eq(resp.id.as_str(), id) {
                match resp.error {
                    Some(err) => {
                        let t = concat(owned("RPC error "), i64_to_string(err.code as i64).as_str());
                        let t = concat(t, ": ");
                        CallStep::Done(Err(concat(t, err.message.as_str())))
                    },
                    None => match resp.result {
                        Some(v) => CallStep::Done(Ok(v)),
                        None => CallStep::Done(Ok(Json::Null)),
                    },
                }
            } else {
                CallStep::Skip
            }
        },
        _ => CallStep::Skip,
    }
}

// ── Interactive login ──────────────────────────────────────────────

/// What `tg login` does on an authorization state.
#[derive(Debug, PartialEq)]
pub enum LoginStep {
    /// Logged in: stop.
    Done,
    /// Ask the user (with this prompt) and send the answer as request `id`
    /// with method `method` and the answer under `param`.
    Ask { prompt: String, id: String, method: String, param: String },
    /// Show this line and keep waiting.
    Show(String),
}

pub enum LoginStepView {
    Done,
    Ask { prompt: Seq<char>, id: Seq<char>, method: Seq<char>, param: Seq<char> },
    Show(Seq<char>),
}

impl View for LoginStep {
    type V = LoginStepView;

    open spec fn view(&self) -> LoginStepView {
        match self {
            LoginStep::Done => LoginStepView::Done,
            LoginStep::Ask { prompt, id, method, param } => LoginStepView::Ask {
                prompt: prompt@,
                id: id@,
                method: method@,
                param: param@,
            },
            LoginStep::Show(s) => LoginStepView::Show(s@),
        }
    }
}

pub open spec fn login_step_spec(state: Seq<char>) -> LoginStepView {
    if state == "ready"@ {
        LoginStepView::Done
    } else if state == "wait_phone"@ {
        LoginStepView::Ask {
            prompt: "📱  Phone number"@,
            id: "login-phone"@,
            method: AUTH_PHONE@,
            param: "phone"@,
        }
    } else if state == "wait_code"@ {
        LoginStepView::Ask {
            prompt: "🔑  Code"@,
            id: "login-code"@,
            method: AUTH_CODE@,
            param: "code"@,
        }
    } else if state == "wait_password"@ {
        LoginStepView::Ask {
            prompt: "🔒  2FA password"@,
            id: "login-pw"@,
            method: AUTH_PASSWORD@,
            param: "password"@,
        }
    } else {
        LoginStepView::Show("   Auth state: "@ + state)
    }
}

/// Decides what the login flow does on an authorization state.
pub fn login_step(state: &str) -> (r: LoginStep)
    ensures
        r@ == login_step_spec(state@),
{
    if str_eq(state, "ready") {
        LoginStep::Done
    } else if str_eq(state, "wait_phone") {
        LoginStep::Ask {
            prompt: owned("📱  Phone number"),
            id: owned("login-phone"),
            method: owned(AUTH_PHONE),
            param: owned("phone"),
        }
    } else if str_eq(state, "wait_code") {
        LoginStep::Ask {
            prompt: owned("🔑  Code"),
            id: owned("login-code"),
            method: owned(AUTH_CODE),
            param: owned("code"),
        }
    } else if str_eq(state, "wait_password") {
        LoginStep::Ask {
            prompt: owned("🔒  2FA password"),
            id: owned("login-pw"),
            method: owned(AUTH_PASSWORD),
            param: owned("password"),
        }
    } else {
        LoginStep::Show(concat(owned("   Auth state: "), state))
    }
}

/// The request that carries the user's answer.
pub open spec fn login_request_spec(id: Seq<char>, method: Seq<char>, param: Seq<char>, answer: Seq<char>) -> JsonView {
    JsonView::Object(
        seq![
            ("id"@, JsonView::Str(id)),
            ("method"@, JsonView::Str(method)),
            ("params"@, JsonView::Object(seq![(param, JsonView::Str(answer))])),
        ],
    )
}

pub fn login_request(id: &str, method: &str, param: &str, answer: &str) -> (r: Json)
    ensures
        r@ == login_request_spec(id@, method@, param@, answer@),
{
    obj3("id", jstr(id), "method", jstr(method), "params", obj1(param, jstr(answer)))
}

/// The request that starts the login flow.
pub fn login_trigger() -> (r: Json)
    ensures
        r@ == JsonView::Object(
            seq![
                ("id"@, JsonView::Str("login-trigger"@)),
                ("method"@, JsonView::Str("auth_trigger"@)),
                ("params"@, JsonView::Object(Seq::empty())),
            ],
        ),
{
    obj3("id", jstr("login-trigger"), "method", jstr("auth_trigger"), "params", empty_object())
}

// ── Laws ───────────────────────────────────────────────────────────

/// A chat given by number is sent as that number.
pub proof fn lemma_numeric_chat(s: Seq<char>, id: i64)
    requires
        parse_i64_spec(s) == Some(id),
    ensures
        chat_value(s) == JsonView::Int(id),
{
}

/// Every state the daemon reports that asks for input is answered with the
/// matching auth method, and `ready` ends the login.
pub proof fn lemma_login_answers_match_methods()
    ensures
        login_step_spec("ready"@) == LoginStepView::Done,
        login_step_spec("wait_phone"@) matches LoginStepView::Ask { method, .. } && method == AUTH_PHONE@,
        login_step_spec("wait_code"@) matches LoginStepView::Ask { method, .. } && method == AUTH_CODE@,
        login_step_spec("wait_password"@) matches LoginStepView::Ask { method, .. } && method
            == AUTH_PASSWORD@,
{
    reveal_strlit("ready");
    reveal_strlit("wait_phone");
    reveal_strlit("wait_code");
    reveal_strlit("wait_password");
    assert("ready"@.len() == 5);
    assert("wait_phone"@.len() == 10);
    assert("wait_code"@.len() == 9);
    assert("wait_password"@.len() == 13);
}

/// A call gets back exactly what the daemon answered its request with (the
/// result, or the error text with code -1), and passes over the answers to
/// other requests.
pub proof fn lemma_call_returns_outcome(
    id: Seq<char>,
    other: Seq<char>,
    outcome: Result<JsonView, Seq<char>>,
)
    requires
        other != id,
    ensures
        call_step_spec(outcome_message(id, outcome), id) == Some(
            match outcome {
                Ok(v) => Ok(v),
                Err(m) => Err(rpc_error_text(-1i32, m)),
            },
        ),
        call_step_spec(outcome_message(other, outcome), id) is None,
{
}

proof fn lemma_digits_read_back(m: nat)
    ensures
        digits(m).len() > 0,
        all_digits(digits(m)),
        digits_value(digits(m)) == m,
    decreases m,
{
    if m < 10 {
        let s = digits(m);
        assert(s =~= seq![digit_char(m)]);
        assert(s.drop_last() =~= Seq::<char>::empty());
        assert(digits_value(Seq::<char>::empty()) == 0);
        assert(digit_char(m) as int == '0' as int + m);
        assert(digits_value(s) == digits_value(s.drop_last()) * 10 + (s.last() as int - '0' as int));
    } else {
        lemma_digits_read_back(m / 10);
        let s = digits(m);
        let t = digits(m / 10);
        assert(s == t.push(digit_char(m % 10)));
        assert(s.drop_last() =~= t);
        assert(digit_char(m % 10) as int == '0' as int + m % 10);
        assert(digits_value(s) == digits_value(t) * 10 + (s.last() as int - '0' as int));
        assert forall|i: int| 0 <= i < s.len() implies is_digit(#[trigger] s[i]) by {
            if i < t.len() {
                assert(s[i] == t[i]);
            }
        }
        assert((m / 10) * 10 + m % 10 == m);
    }
}

/// An id printed in decimal reads back as the same id: the number that a
/// listing shows for a chat is the chat a command given that number names.
pub proof fn lemma_printed_ids_parse_back(n: i64)
    ensures
        parse_i64_spec(decimal(n as int)) == Some(n),
        chat_value(decimal(n as int)) == JsonView::Int(n),
{
    if n >= 0 {
        lemma_digits_read_back(n as nat);
        let s = digits(n as nat);
        assert(is_digit(s[0]));
    } else {
        lemma_digits_read_back((-n) as nat);
        let d = digits((-n) as nat);
        let s = seq!['-'] + d;
        assert(s[0] == '-');
        assert(s.drop_first() =~= d);
    }
}


/// The request for a listing or a search names the chat as the user wrote
/// it (a number as a chat id, anything else as written) and carries exactly
/// the limit and query the user gave; forwarding keeps source, destination
/// and message apart.
pub proof fn lemma_requests_carry_arguments(cmd: Command)
    ensures
        cmd matches Command::Chats { limit } ==> (command_request_spec(cmd) matches Some((m, p)) && m == LIST_DIALOGS@
            && at(p, "limit"@) == JsonView::Int(limit)),
        cmd matches Command::History { chat, limit } ==> (command_request_spec(cmd) matches Some((m, p)) && m
            == GET_MESSAGES@ && at(p, "chat_id"@) == chat_value(chat@) && at(p, "limit"@) == JsonView::Int(
            limit,
        )),
        cmd matches Command::Search { chat, query, limit } ==> (command_request_spec(cmd) matches Some((m, p)) && m
            == SEARCH@ && at(p, "chat_id"@) == chat_value(chat@) && at(p, "query"@) == JsonView::Str(
            query@,
        ) && at(p, "limit"@) == JsonView::Int(limit)),
        cmd matches Command::Forward { from, to, msg_id } ==> (command_request_spec(cmd) matches Some((m, p)) && m
            == FORWARD_MESSAGE@ && at(p, "from_chat_id"@) == chat_value(from@) && at(p, "to_chat_id"@)
            == chat_value(to@) && at(p, "message_id"@) == JsonView::Int(msg_id)),
{
    reveal_strlit("chat_id");
    reveal_strlit("limit");
    reveal_strlit("query");
    reveal_strlit("from_chat_id");
    reveal_strlit("to_chat_id");
    reveal_strlit("message_id");
    assert("limit"@[0] != "query"@[0]);
    assert("message_id"@[0] != "to_chat_id"@[0]);
    match cmd {
        Command::Chats { limit } => {
            let fs = seq![("limit"@, JsonView::Int(limit))];
            crate::json::lemma_find_field_index(fs, "limit"@, 0);
        },
        Command::History { chat, limit } => {
            let fs = seq![("chat_id"@, chat_value(chat@)), ("limit"@, JsonView::Int(limit))];
            assert(fs[0].0 == "chat_id"@ && fs[1].0 == "limit"@);
            crate::json::lemma_find_field_index(fs, "chat_id"@, 0);
            crate::json::lemma_find_field_index(fs, "limit"@, 1);
        },
        Command::Search { chat, query, limit } => {
            let fs = seq![
                ("chat_id"@, chat_value(chat@)),
                ("query"@, JsonView::Str(query@)),
                ("limit"@, JsonView::Int(limit)),
            ];
            assert(fs[0].0 == "chat_id"@ && fs[1].0 == "query"@ && fs[2].0 == "limit"@);
            crate::json::lemma_find_field_index(fs, "chat_id"@, 0);
            crate::json::lemma_find_field_index(fs, "query"@, 1);
            crate::json::lemma_find_field_index(fs, "limit"@, 2);
        },
        Command::Forward { from, to, msg_id } => {
            let fs = seq![
                ("from_chat_id"@, chat_value(from@)),
                ("to_chat_id"@, chat_value(to@)),
                ("message_id"@, JsonView::Int(msg_id)),
            ];
            assert(fs[0].0 == "from_chat_id"@ && fs[1].0 == "to_chat_id"@ && fs[2].0 == "message_id"@);
            crate::json::lemma_find_field_index(fs, "from_chat_id"@, 0);
            crate::json::lemma_find_field_index(fs, "to_chat_id"@, 1);
            crate::json::lemma_find_field_index(fs, "message_id"@, 2);
        },
        _ => {},
    }
}

} // verus!
