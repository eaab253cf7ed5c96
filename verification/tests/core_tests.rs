use tg_cli::cache::{cache_answers, new_download, JsonChat, JsonMessage};
use tg_cli::json::{at_ref, clone_json, opt_bool, opt_i64, opt_str, Json};
use tg_cli::protocol::{
    arr0, arr1, array, field, jstr, jstring, obj1, obj2, obj3, object, parse_error_message, response_for,
    AUTH_UPDATE, FILE_UPDATE, GET_ME, NEW_MESSAGE, SHUTDOWN,
};
use tg_cli::text::{i64_to_string, owned, starts_with, str_eq, usize_to_string};

fn cobj2(fields: Vec<(&str, Json)>) -> Json {
    Json::Object(fields.into_iter().map(|(k, v)| (k.to_string(), v)).collect())
}

#[test]
fn string_helpers() {
    assert!(str_eq("abc", "abc"));
    assert!(!str_eq("abc", "abd"));
    assert!(!str_eq("abc", "ab"));
    assert!(starts_with("/quit", "/q"));
    assert!(!starts_with("/", "/q"));
    assert_eq!(owned("x"), "x");
    assert_eq!(tg_cli::text::concat("ab".to_string(), "cd"), "abcd");
}

#[test]
fn decimal_text() {
    assert_eq!(i64_to_string(0), "0");
    assert_eq!(i64_to_string(-15), "-15");
    assert_eq!(i64_to_string(i64::MAX), "9223372036854775807");
    assert_eq!(i64_to_string(i64::MIN), "-9223372036854775808");
    assert_eq!(usize_to_string(1234), "1234");
}

#[test]
fn json_lookups() {
    let v = cobj2(vec![
        ("a", Json::Int(1)),
        ("b", cobj2(vec![("c", Json::Str("deep".to_string()))])),
        ("f", Json::Bool(true)),
    ]);
    assert_eq!(v.get("a"), Some(&Json::Int(1)));
    assert_eq!(v.get("zzz"), None);
    assert_eq!(Json::Int(3).get("a"), None);
    assert_eq!(opt_i64(at_ref(Some(&v), "a")), Some(1));
    assert_eq!(opt_str(at_ref(at_ref(Some(&v), "b"), "c")), Some(&"deep".to_string()));
    assert_eq!(opt_bool(at_ref(Some(&v), "f")), Some(true));
    assert_eq!(at_ref(at_ref(Some(&v), "missing"), "c"), None);
    assert_eq!(Json::Str("s".to_string()).as_str(), Some(&"s".to_string()));
    assert_eq!(Json::Null.as_i64(), None);
    assert!(v.is_object());
    assert!(!Json::Array(vec![]).is_object());
    assert_eq!(Json::Array(vec![Json::Null]).as_array().map(|a| a.len()), Some(1));
    assert_eq!(clone_json(&v), v);
    assert_eq!(v.clone(), v);
}

#[test]
fn json_builders() {
    assert_eq!(jstr("x"), Json::Str("x".to_string()));
    assert_eq!(jstring("y".to_string()), Json::Str("y".to_string()));
    assert_eq!(field("k", Json::Null), ("k".to_string(), Json::Null));
    assert_eq!(object(vec![field("k", Json::Int(1))]), cobj2(vec![("k", Json::Int(1))]));
    assert_eq!(array(vec![Json::Int(1)]), Json::Array(vec![Json::Int(1)]));
    assert_eq!(arr0(), Json::Array(vec![]));
    assert_eq!(arr1(Json::Int(2)), Json::Array(vec![Json::Int(2)]));
    assert_eq!(obj1("a", Json::Int(1)), cobj2(vec![("a", Json::Int(1))]));
    assert_eq!(obj2("a", Json::Int(1), "b", Json::Int(2)), cobj2(vec![("a", Json::Int(1)), ("b", Json::Int(2))]));
    assert_eq!(
        obj3("a", Json::Int(1), "b", Json::Int(2), "c", Json::Null),
        cobj2(vec![("a", Json::Int(1)), ("b", Json::Int(2)), ("c", Json::Null)])
    );
}

#[test]
fn protocol_names() {
    assert_eq!(GET_ME, "get_me");
    assert_eq!(SHUTDOWN, "shutdown");
    assert_eq!(NEW_MESSAGE, "new_message");
    assert_eq!(AUTH_UPDATE, "auth_update");
    assert_eq!(FILE_UPDATE, "file_update");
}

#[test]
fn responses_for_outcomes() {
    let ok = response_for("r1".to_string(), Ok(Json::Int(5)));
    assert_eq!(ok.id, "r1");
    assert_eq!(ok.result, Some(Json::Int(5)));
    assert!(ok.error.is_none());
    let err = response_for("r2".to_string(), Err("no such chat".to_string()));
    assert_eq!(err.id, "r2");
    assert!(err.result.is_none());
    let e = err.error.expect("an error");
    assert_eq!(e.code, -1);
    assert_eq!(e.message, "no such chat");
}

#[test]
fn parse_error_reply() {
    assert_eq!(
        parse_error_message(),
        cobj2(vec![
            ("type", Json::Str("response".to_string())),
            ("id", Json::Str(String::new())),
            (
                "error",
                cobj2(vec![("code", Json::Int(-32700)), ("message", Json::Str("Parse error".to_string()))]),
            ),
        ])
    );
}

#[test]
fn cache_rows_as_json() {
    let chat = JsonChat {
        id: 1,
        title: "T".to_string(),
        kind: "group".to_string(),
        last_message_id: None,
        unread_count: 2,
        updated_at: 99,
    };
    assert_eq!(
        chat.to_json(),
        cobj2(vec![
            ("id", Json::Int(1)),
            ("title", Json::Str("T".to_string())),
            ("kind", Json::Str("group".to_string())),
            ("last_message_id", Json::Null),
            ("unread_count", Json::Int(2)),
            ("updated_at", Json::Int(99)),
        ])
    );
    let msg = JsonMessage {
        chat_id: 1,
        message_id: 2,
        sender_id: Some(3),
        text: None,
        date: 4,
        is_outgoing: false,
        content_type: "photo".to_string(),
    };
    assert_eq!(
        msg.to_json(),
        cobj2(vec![
            ("chat_id", Json::Int(1)),
            ("message_id", Json::Int(2)),
            ("sender_id", Json::Int(3)),
            ("text", Json::Null),
            ("date", Json::Int(4)),
            ("is_outgoing", Json::Bool(false)),
            ("content_type", Json::Str("photo".to_string())),
        ])
    );
    assert!(cache_answers(3));
    assert!(!cache_answers(0));
}

#[test]
fn new_downloads_start_pending() {
    let row = new_download(5, 6, 7, 1_700_000_000);
    assert_eq!((row.chat_id, row.message_id, row.file_id, row.created_at), (5, 6, 7, 1_700_000_000));
    assert_eq!(row.status, tg_cli::models::DownloadStatus::Pending.as_str());
    assert_eq!(row.status, "pending");
}
