use tg_cli::cli::Command;
use tg_cli::json::Json;
use tg_cli::output::{print_dialogs, print_messages, print_result, OutLine};

fn oobj(fields: Vec<(&str, Json)>) -> Json {
    Json::Object(fields.into_iter().map(|(k, v)| (k.to_string(), v)).collect())
}

fn os(s: &str) -> Json {
    Json::Str(s.to_string())
}

fn t(s: &str) -> OutLine {
    OutLine::Text(s.to_string())
}

#[test]
fn cached_chat_listing_pads_titles() {
    let rows = Json::Array(vec![
        oobj(vec![("id", Json::Int(11)), ("title", os("Family")), ("unread_count", Json::Int(3))]),
        oobj(vec![("id", Json::Int(12)), ("title", os("Work")), ("unread_count", Json::Int(0))]),
    ]);
    assert_eq!(
        print_dialogs(&rows),
        vec![
            t("📋  2 chats:\n"),
            t(&format!("    1. {:<17}  [11]", "(3) Family")),
            t(&format!("    2. {:<17}  [12]", "Work")),
        ]
    );
}

#[test]
fn chat_id_listing_and_empty() {
    let ids = oobj(vec![("chat_ids", Json::Array(vec![Json::Int(5), Json::Int(-7)]))]);
    assert_eq!(
        print_dialogs(&ids),
        vec![
            t("📋  2 chats:\n"),
            OutLine::Value("    1. ".to_string(), Json::Int(5)),
            OutLine::Value("    2. ".to_string(), Json::Int(-7)),
        ]
    );
    assert_eq!(print_dialogs(&Json::Array(vec![])), vec![t("(no chats)")]);
    assert_eq!(print_dialogs(&oobj(vec![])), vec![t("(no chats)")]);
}

#[test]
fn numbering_pads_to_three() {
    let rows: Vec<Json> = (0..10).map(|i| oobj(vec![("id", Json::Int(i)), ("title", os("x"))])).collect();
    let out = print_dialogs(&Json::Array(rows));
    assert_eq!(out[10], t(&format!("   10. {:<17}  [9]", "x")));
}

#[test]
fn cached_message_listing() {
    // The cache returns its rows newest first; the listing shows them oldest first.
    let rows = Json::Array(vec![
        oobj(vec![("message_id", Json::Int(2)), ("date", Json::Int(60))]),
        oobj(vec![
            ("message_id", Json::Int(1)),
            ("sender_id", Json::Int(42)),
            ("text", os("hello")),
            ("date", Json::Int(0)),
        ]),
    ]);
    assert_eq!(
        print_messages(&rows),
        vec![
            t("[1970-01-01 00:00] user#42 #1"),
            t("  hello"),
            t(""),
            t("[1970-01-01 00:01] system #2"),
            t("  [media]"),
            t(""),
        ]
    );
    assert_eq!(print_messages(&Json::Array(vec![])), vec![t("(no messages)")]);
}

#[test]
fn tdlib_message_listing_oldest_first() {
    let newest = oobj(vec![
        ("id", Json::Int(9)),
        ("sender_id", oobj(vec![("user_id", Json::Int(1))])),
        ("content", oobj(vec![("text", oobj(vec![("text", os("second"))]))])),
        ("date", Json::Int(120)),
    ]);
    let oldest = oobj(vec![
        ("id", Json::Int(8)),
        ("content", oobj(vec![("text", oobj(vec![("text", os("first"))]))])),
        ("date", Json::Int(60)),
    ]);
    let result = oobj(vec![("messages", Json::Array(vec![newest, oldest]))]);
    assert_eq!(
        print_messages(&result),
        vec![
            t("[1970-01-01 00:01] system #8"),
            t("  first"),
            t(""),
            t("[1970-01-01 00:02] user#1 #9"),
            t("  second"),
            t(""),
        ]
    );
    assert_eq!(print_messages(&oobj(vec![("total_count", Json::Int(0))])), vec![t("(no messages)")]);
}

#[test]
fn command_results() {
    let me = oobj(vec![
        ("first_name", os("Ada")),
        ("last_name", os("L")),
        ("username", os("ada")),
        ("id", Json::Int(77)),
    ]);
    assert_eq!(print_result(&Command::Me, &me), vec![t("👤  Ada L (@ada)  id=77")]);
    assert_eq!(print_result(&Command::Me, &oobj(vec![])), vec![t("👤    (@?)  id=0")]);
    assert_eq!(
        print_result(&Command::Status, &oobj(vec![("socket", os("/run/tg.sock"))])),
        vec![t("Socket: /run/tg.sock")]
    );
    assert_eq!(
        print_result(&Command::Send { chat: "1".to_string(), text: vec![] }, &oobj(vec![("id", Json::Int(5))])),
        vec![t("✅  Sent (#5)")]
    );
    let file = oobj(vec![("local", oobj(vec![("path", os("/tmp/f.jpg"))]))]);
    assert_eq!(print_result(&Command::Download { file_id: 1 }, &file), vec![t("✅  Downloaded to /tmp/f.jpg")]);
    assert_eq!(print_result(&Command::Download { file_id: 1 }, &Json::Null), vec![t("✅  Downloaded to ?")]);
    assert_eq!(print_result(&Command::Logout, &Json::Null), vec![t("✅  Done.")]);
    assert_eq!(print_result(&Command::Read { chat: "1".to_string() }, &Json::Null), vec![t("✅  Done.")]);
    assert_eq!(print_result(&Command::Init, &Json::Null), vec![]);
}

#[test]
fn history_and_search_print_messages() {
    let rows = Json::Array(vec![oobj(vec![("message_id", Json::Int(3)), ("text", os("x")), ("date", Json::Int(0))])]);
    let expected = vec![t("[1970-01-01 00:00] system #3"), t("  x"), t("")];
    assert_eq!(print_result(&Command::History { chat: "1".to_string(), limit: 1 }, &rows), expected);
    assert_eq!(
        print_result(&Command::Search { chat: "1".to_string(), query: "x".to_string(), limit: 1 }, &rows),
        expected
    );
}

#[test]
fn long_titles_are_not_cut() {
    let rows = Json::Array(vec![oobj(vec![
        ("id", Json::Int(1)),
        ("title", os("A very long group title")),
        ("unread_count", Json::Int(0)),
    ])]);
    assert_eq!(print_dialogs(&rows)[1], t("    1. A very long group title  [1]"));
}
