use tg_cli::json::Json;
use tg_cli::line_client::{
    already_logged_in, chat_id_from_str, first_reply, line_login_answer, line_login_step, line_request,
    login_status_request, print_dialogs, print_download, print_me, print_messages, print_result, print_send,
    print_status, request_object, Commands, LineLoginStep, Reply,
};
use tg_cli::output::OutLine;
use tg_cli::protocol::line_parse_error;

fn lobj(fields: Vec<(&str, Json)>) -> Json {
    Json::Object(fields.into_iter().map(|(k, v)| (k.to_string(), v)).collect())
}

fn ls(s: &str) -> Json {
    Json::Str(s.to_string())
}

fn lt(s: &str) -> OutLine {
    OutLine::Text(s.to_string())
}

#[test]
fn line_chat_ids() {
    assert_eq!(chat_id_from_str("123"), Json::Int(123));
    assert_eq!(chat_id_from_str("-100"), Json::Int(-100));
    assert_eq!(chat_id_from_str("@alice"), ls("@alice"));
}

#[test]
fn line_requests_of_commands() {
    assert_eq!(line_request(&Commands::Me), Some(("get_me".to_string(), lobj(vec![]))));
    assert_eq!(
        line_request(&Commands::Ls { limit: 20 }),
        Some(("list_dialogs".to_string(), lobj(vec![("limit", Json::Int(20))])))
    );
    assert_eq!(
        line_request(&Commands::Messages { chat: "42".to_string(), limit: 20 }),
        Some(("get_messages".to_string(), lobj(vec![("chat_id", Json::Int(42)), ("limit", Json::Int(20))])))
    );
    assert_eq!(
        line_request(&Commands::Send { chat: "@a".to_string(), text: vec!["good".to_string(), "day".to_string()] }),
        Some(("send_message".to_string(), lobj(vec![("chat_id", ls("@a")), ("text", ls("good day"))])))
    );
    assert_eq!(
        line_request(&Commands::Download { chat: "1".to_string(), msg_id: 2 }),
        Some(("download_file".to_string(), lobj(vec![("chat_id", Json::Int(1)), ("message_id", Json::Int(2))])))
    );
    assert_eq!(line_request(&Commands::Stop), Some(("shutdown".to_string(), lobj(vec![]))));
    assert_eq!(line_request(&Commands::Status), Some(("status".to_string(), lobj(vec![]))));
    assert_eq!(line_request(&Commands::Init), None);
    assert_eq!(line_request(&Commands::Login), None);
}

#[test]
fn request_lines() {
    assert_eq!(
        request_object(1, "get_me", lobj(vec![])),
        lobj(vec![("id", Json::Int(1)), ("method", ls("get_me")), ("params", lobj(vec![]))])
    );
    assert_eq!(
        login_status_request(),
        lobj(vec![("id", Json::Int(1)), ("method", ls("status")), ("params", lobj(vec![]))])
    );
    assert_eq!(
        line_login_answer(2, "auth_code", "code", "55555"),
        lobj(vec![("id", Json::Int(2)), ("method", ls("auth_code")), ("params", lobj(vec![("code", ls("55555"))]))])
    );
}

#[test]
fn status_and_me_lines() {
    assert_eq!(
        print_status(&lobj(vec![("authorized", Json::Bool(true)), ("socket", ls("/tmp/tg-cli.sock"))])),
        vec![lt("Authorized : ✅ yes"), lt("Socket     : /tmp/tg-cli.sock")]
    );
    assert_eq!(print_status(&Json::Null), vec![lt("Authorized : ❌ no"), lt("Socket     : ?")]);
    let me = lobj(vec![
        ("first_name", ls("Ada")),
        ("last_name", ls("Lovelace")),
        ("username", ls("ada")),
        ("phone_number", ls("4400")),
        ("id", Json::Int(9)),
    ]);
    assert_eq!(print_me(&me), vec![lt("👤  Ada Lovelace (@ada)"), lt("    ID: 9  Phone: +4400")]);
    assert_eq!(print_me(&lobj(vec![])), vec![lt("👤    (@?)"), lt("    ID: 0  Phone: +?")]);
}

#[test]
fn line_dialog_listing() {
    let r = lobj(vec![("chat_ids", Json::Array(vec![Json::Int(3), Json::Int(4)]))]);
    assert_eq!(
        print_dialogs(&r),
        vec![
            lt("📋  2 dialogs:\n"),
            OutLine::Value("    1. ".to_string(), Json::Int(3)),
            OutLine::Value("    2. ".to_string(), Json::Int(4)),
            lt("\n  (Use `tg messages <id>` to view messages)"),
        ]
    );
    assert_eq!(print_dialogs(&Json::Array(vec![])), vec![lt("(no dialogs)")]);
}

#[test]
fn line_message_listing() {
    let newer = lobj(vec![
        ("id", Json::Int(2)),
        ("sender_id", lobj(vec![("user_id", Json::Int(5))])),
        ("content", lobj(vec![("caption", lobj(vec![("text", ls("a cat"))]))])),
        ("date", Json::Int(86_400)),
    ]);
    let first_msg = lobj(vec![
        ("id", Json::Int(1)),
        ("content", lobj(vec![("text", lobj(vec![("text", ls("hi"))]))])),
        ("date", Json::Int(0)),
    ]);
    let r = lobj(vec![("messages", Json::Array(vec![newer, first_msg, lobj(vec![])]))]);
    assert_eq!(
        print_messages(&r),
        vec![
            lt("[1970-01-01 00:00] system #0"),
            lt("  [media]"),
            lt(""),
            lt("[1970-01-01 00:00] system #1"),
            lt("  hi"),
            lt(""),
            lt("[1970-01-02 00:00] user#5 #2"),
            lt("  a cat"),
            lt(""),
        ]
    );
    assert_eq!(print_messages(&Json::Null), vec![lt("(no messages)")]);
}

#[test]
fn send_and_download_lines() {
    assert_eq!(print_send(&lobj(vec![("id", Json::Int(31))])), vec![lt("✅  Sent (message #31)")]);
    assert_eq!(
        print_download(&lobj(vec![("local", lobj(vec![("path", ls("/d/x.png"))]))])),
        vec![lt("✅  Downloaded to /d/x.png")]
    );
    assert_eq!(print_result(&Commands::Forward { from: "1".to_string(), to: "2".to_string(), msg_id: 3 }, &Json::Null), vec![lt("✅  Done.")]);
    assert_eq!(print_result(&Commands::Login, &Json::Null), vec![]);
}

#[test]
fn first_reply_cases() {
    let auth = lobj(vec![("type", ls("auth_state")), ("state", ls("wait_code"))]);
    assert_eq!(first_reply(&Commands::Me, &auth), Reply::Lines(vec![lt("🔐  Auth state: wait_code")]));
    let failed = lobj(vec![
        ("type", ls("response")),
        ("id", Json::Int(1)),
        ("error", lobj(vec![("code", Json::Int(-1)), ("message", ls("missing chat_id"))])),
    ]);
    assert_eq!(first_reply(&Commands::Me, &failed), Reply::Failed(ls("missing chat_id")));
    let ok = lobj(vec![("type", ls("response")), ("id", Json::Int(1)), ("result", lobj(vec![("id", Json::Int(8))]))]);
    assert_eq!(
        first_reply(&Commands::Send { chat: "1".to_string(), text: vec!["x".to_string()] }, &ok),
        Reply::Lines(vec![lt("✅  Sent (message #8)")])
    );
    let bare = lobj(vec![("type", ls("response")), ("id", Json::Int(1))]);
    assert_eq!(first_reply(&Commands::Me, &bare), Reply::Lines(vec![]));
    assert_eq!(first_reply(&Commands::Me, &lobj(vec![("type", ls("event"))])), Reply::Pretty);
    assert_eq!(first_reply(&Commands::Me, &lobj(vec![("hello", Json::Int(1))])), Reply::Pretty);
}

#[test]
fn line_login_steps() {
    let st = |s: &str| lobj(vec![("type", ls("auth_state")), ("state", ls(s))]);
    assert_eq!(line_login_step(&st("ready")), LineLoginStep::Done);
    assert_eq!(
        line_login_step(&st("wait_code")),
        LineLoginStep::Ask {
            prompt: "📱  Enter the code you received: ".to_string(),
            id: 2,
            method: "auth_code".to_string(),
            param: "code".to_string(),
        }
    );
    assert_eq!(
        line_login_step(&st("wait_password")),
        LineLoginStep::Ask {
            prompt: "🔒  Enter 2FA password: ".to_string(),
            id: 3,
            method: "auth_password".to_string(),
            param: "password".to_string(),
        }
    );
    assert_eq!(
        line_login_step(&st("wait_phone")),
        LineLoginStep::Ask {
            prompt: "📱  Enter phone number: ".to_string(),
            id: 4,
            method: "auth_phone".to_string(),
            param: "phone".to_string(),
        }
    );
    assert_eq!(line_login_step(&st("closed")), LineLoginStep::Show("   Auth state: closed".to_string()));
    assert_eq!(
        line_login_step(&lobj(vec![("type", ls("auth_state"))])),
        LineLoginStep::Show("   Auth state: unknown".to_string())
    );
    assert_eq!(line_login_step(&lobj(vec![("type", ls("event"))])), LineLoginStep::Ignore);
}

#[test]
fn already_logged_in_reads_status() {
    let yes = lobj(vec![("result", lobj(vec![("authorized", Json::Bool(true))]))]);
    let no = lobj(vec![("result", lobj(vec![("authorized", Json::Bool(false))]))]);
    assert!(already_logged_in(&yes));
    assert!(!already_logged_in(&no));
    assert!(!already_logged_in(&lobj(vec![])));
}

#[test]
fn line_parse_error_reply() {
    assert_eq!(
        line_parse_error(),
        lobj(vec![
            ("type", ls("response")),
            ("id", Json::Int(0)),
            ("error", lobj(vec![("code", Json::Int(-32700)), ("message", ls("Parse error"))])),
        ])
    );
}
