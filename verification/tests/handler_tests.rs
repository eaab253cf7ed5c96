use tg_cli::handler::{plan_request, resolved_params, sent_status, username_exec, CacheRead, Plan};
use tg_cli::json::Json;

fn hobj(fields: Vec<(&str, Json)>) -> Json {
    Json::Object(fields.into_iter().map(|(k, v)| (k.to_string(), v)).collect())
}

fn hstr(s: &str) -> Json {
    Json::Str(s.to_string())
}

fn plan(method: &str, params: Json) -> Result<Plan, String> {
    plan_request(method, &params, "/run/tg.sock")
}

#[test]
fn plan_status_replies_with_socket() {
    assert_eq!(
        plan("status", hobj(vec![])),
        Ok(Plan::Reply(hobj(vec![("socket", hstr("/run/tg.sock"))])))
    );
}

#[test]
fn plan_get_me_queries_tdlib() {
    assert_eq!(plan("get_me", Json::Null), Ok(Plan::Query(hobj(vec![("@type", hstr("getMe"))]))));
}

#[test]
fn plan_list_dialogs_defaults_limit() {
    let expected_query = hobj(vec![
        ("@type", hstr("getChats")),
        ("chat_list", hobj(vec![("@type", hstr("chatListMain"))])),
        ("limit", Json::Int(20)),
    ]);
    assert_eq!(
        plan("list_dialogs", hobj(vec![])),
        Ok(Plan::CacheThenQuery(CacheRead::Chats { limit: 20 }, expected_query))
    );
}

#[test]
fn plan_list_dialogs_uses_given_limit() {
    match plan("list_dialogs", hobj(vec![("limit", Json::Int(5))])) {
        Ok(Plan::CacheThenQuery(CacheRead::Chats { limit }, q)) => {
            assert_eq!(limit, 5);
            assert_eq!(q.get("limit"), Some(&Json::Int(5)));
        }
        other => panic!("unexpected plan {:?}", other),
    }
}

#[test]
fn plan_list_dialogs_ignores_non_integer_limit() {
    match plan("list_dialogs", hobj(vec![("limit", hstr("5"))])) {
        Ok(Plan::CacheThenQuery(CacheRead::Chats { limit }, _)) => assert_eq!(limit, 20),
        other => panic!("unexpected plan {:?}", other),
    }
}

#[test]
fn plan_get_messages() {
    let expected_query = hobj(vec![
        ("@type", hstr("getChatHistory")),
        ("chat_id", Json::Int(42)),
        ("from_message_id", Json::Int(0)),
        ("offset", Json::Int(0)),
        ("limit", Json::Int(50)),
        ("only_local", Json::Bool(false)),
    ]);
    assert_eq!(
        plan("get_messages", hobj(vec![("chat_id", Json::Int(42))])),
        Ok(Plan::CacheThenQuery(CacheRead::Messages { chat_id: 42, limit: 50 }, expected_query))
    );
}

#[test]
fn plan_get_messages_missing_chat() {
    assert_eq!(plan("get_messages", hobj(vec![])), Err("missing chat_id".to_string()));
    assert_eq!(
        plan("get_messages", hobj(vec![("chat_id", hstr("@durov"))])),
        Err("missing chat_id".to_string())
    );
}

fn resolve_query(username: &str) -> Json {
    hobj(vec![("@type", hstr("searchPublicChat")), ("username", hstr(username))])
}

#[test]
fn plan_send_to_username_resolves_the_chat_first() {
    let params = hobj(vec![("chat_id", hstr("@alice")), ("text", hstr("Hi there"))]);
    assert_eq!(
        plan("send_message", clone(&params)),
        Ok(Plan::Resolve { key: "chat_id".to_string(), query: resolve_query("alice") })
    );
    let chat = hobj(vec![("@type", hstr("chat")), ("id", Json::Int(777)), ("title", hstr("Alice"))]);
    let resolved = resolved_params(&params, "chat_id", &chat).expect("resolved");
    assert_eq!(resolved, hobj(vec![("chat_id", Json::Int(777)), ("text", hstr("Hi there"))]));
    let expected_query = hobj(vec![
        ("@type", hstr("sendMessage")),
        ("chat_id", Json::Int(777)),
        (
            "input_message_content",
            hobj(vec![
                ("@type", hstr("inputMessageText")),
                ("text", hobj(vec![("@type", hstr("formattedText")), ("text", hstr("Hi there"))])),
            ]),
        ),
    ]);
    assert_eq!(plan("send_message", resolved), Ok(Plan::Query(expected_query)));
}

#[test]
fn unknown_usernames_are_refused() {
    let params = hobj(vec![("chat_id", hstr("@nobody")), ("text", hstr("x"))]);
    let error = hobj(vec![("@type", hstr("error")), ("code", Json::Int(400)), ("message", hstr("USERNAME_NOT_OCCUPIED"))]);
    assert_eq!(resolved_params(&params, "chat_id", &error), Err("chat not found: @nobody".to_string()));
}

#[test]
fn only_sending_takes_a_username() {
    assert_eq!(username_exec("@bob"), "bob");
    assert_eq!(username_exec("bob"), "bob");
    assert_eq!(username_exec(""), "");
    assert_eq!(
        plan("send_message", hobj(vec![("chat_id", hstr("durov")), ("text", hstr("x"))])),
        Ok(Plan::Resolve { key: "chat_id".to_string(), query: resolve_query("durov") })
    );
    for method in ["get_messages", "search", "delete_message", "mark_read"] {
        assert_eq!(plan(method, hobj(vec![("chat_id", hstr("@durov"))])), Err("missing chat_id".to_string()));
    }
    assert_eq!(
        plan("forward_message", hobj(vec![("from_chat_id", hstr("@a")), ("to_chat_id", Json::Int(2))])),
        Err("missing from_chat_id".to_string())
    );
    assert_eq!(
        plan("forward_message", hobj(vec![("from_chat_id", Json::Int(1)), ("to_chat_id", hstr("@b"))])),
        Err("missing to_chat_id".to_string())
    );
}

fn clone(j: &Json) -> Json {
    tg_cli::json::clone_json(j)
}

#[test]
fn plan_send_message() {
    let expected_query = hobj(vec![
        ("@type", hstr("sendMessage")),
        ("chat_id", Json::Int(7)),
        (
            "input_message_content",
            hobj(vec![
                ("@type", hstr("inputMessageText")),
                ("text", hobj(vec![("@type", hstr("formattedText")), ("text", hstr("hi there"))])),
            ]),
        ),
    ]);
    assert_eq!(
        plan("send_message", hobj(vec![("chat_id", Json::Int(7)), ("text", hstr("hi there"))])),
        Ok(Plan::Query(expected_query))
    );
}

#[test]
fn plan_send_message_errors() {
    assert_eq!(plan("send_message", hobj(vec![("text", hstr("x"))])), Err("missing chat_id".to_string()));
    assert_eq!(plan("send_message", hobj(vec![("chat_id", Json::Int(7))])), Err("missing text".to_string()));
}

#[test]
fn plan_search() {
    let expected_query = hobj(vec![
        ("@type", hstr("searchChatMessages")),
        ("chat_id", Json::Int(3)),
        ("query", hstr("cats")),
        ("limit", Json::Int(10)),
    ]);
    assert_eq!(
        plan(
            "search",
            hobj(vec![("chat_id", Json::Int(3)), ("query", hstr("cats")), ("limit", Json::Int(10))])
        ),
        Ok(Plan::CacheThenQuery(
            CacheRead::Search { chat_id: 3, query: "cats".to_string(), limit: 10 },
            expected_query
        ))
    );
    assert_eq!(plan("search", hobj(vec![("chat_id", Json::Int(3))])), Err("missing query".to_string()));
}

#[test]
fn plan_forward() {
    let expected_query = hobj(vec![
        ("@type", hstr("forwardMessages")),
        ("chat_id", Json::Int(2)),
        ("from_chat_id", Json::Int(1)),
        ("message_ids", Json::Array(vec![Json::Int(9)])),
    ]);
    assert_eq!(
        plan(
            "forward_message",
            hobj(vec![("from_chat_id", Json::Int(1)), ("to_chat_id", Json::Int(2)), ("message_id", Json::Int(9))])
        ),
        Ok(Plan::Query(expected_query))
    );
    assert_eq!(
        plan("forward_message", hobj(vec![("to_chat_id", Json::Int(2))])),
        Err("missing from_chat_id".to_string())
    );
    assert_eq!(
        plan("forward_message", hobj(vec![("from_chat_id", Json::Int(1))])),
        Err("missing to_chat_id".to_string())
    );
    assert_eq!(
        plan("forward_message", hobj(vec![("from_chat_id", Json::Int(1)), ("to_chat_id", Json::Int(2))])),
        Err("missing message_id".to_string())
    );
}

#[test]
fn plan_delete() {
    let expected_query = hobj(vec![
        ("@type", hstr("deleteMessages")),
        ("chat_id", Json::Int(5)),
        ("message_ids", Json::Array(vec![Json::Int(6)])),
        ("revoke", Json::Bool(true)),
    ]);
    assert_eq!(
        plan("delete_message", hobj(vec![("chat_id", Json::Int(5)), ("message_id", Json::Int(6))])),
        Ok(Plan::Query(expected_query))
    );
    assert_eq!(
        plan("delete_message", hobj(vec![("chat_id", Json::Int(5))])),
        Err("missing message_id".to_string())
    );
}

#[test]
fn plan_mark_read_notifies() {
    let expected_query = hobj(vec![
        ("@type", hstr("viewMessages")),
        ("chat_id", Json::Int(8)),
        ("message_ids", Json::Array(vec![])),
        ("force_read", Json::Bool(true)),
    ]);
    assert_eq!(plan("mark_read", hobj(vec![("chat_id", Json::Int(8))])), Ok(Plan::Notify(expected_query)));
}

#[test]
fn plan_download() {
    let expected_query = hobj(vec![
        ("@type", hstr("downloadFile")),
        ("file_id", Json::Int(77)),
        ("priority", Json::Int(1)),
        ("synchronous", Json::Bool(true)),
    ]);
    assert_eq!(plan("download_file", hobj(vec![("file_id", Json::Int(77))])), Ok(Plan::Query(expected_query)));
    assert_eq!(plan("download_file", hobj(vec![])), Err("missing file_id".to_string()));
}

#[test]
fn plan_logout_and_shutdown() {
    assert_eq!(plan("logout", Json::Null), Ok(Plan::Notify(hobj(vec![("@type", hstr("logOut"))]))));
    assert_eq!(plan("shutdown", Json::Null), Ok(Plan::Shutdown));
}

#[test]
fn plan_auth_methods() {
    let phone_query = hobj(vec![
        ("@type", hstr("setAuthenticationPhoneNumber")),
        ("phone_number", hstr("+15550100")),
        (
            "settings",
            hobj(vec![
                ("@type", hstr("phoneNumberAuthenticationSettings")),
                ("is_current_phone_number", Json::Bool(true)),
            ]),
        ),
    ]);
    assert_eq!(plan("auth_phone", hobj(vec![("phone", hstr("+15550100"))])), Ok(Plan::Notify(phone_query)));
    assert_eq!(
        plan("auth_code", hobj(vec![("code", hstr("12345"))])),
        Ok(Plan::Notify(hobj(vec![("@type", hstr("checkAuthenticationCode")), ("code", hstr("12345"))])))
    );
    assert_eq!(
        plan("auth_password", hobj(vec![("password", hstr("pw"))])),
        Ok(Plan::Notify(hobj(vec![("@type", hstr("checkAuthenticationPassword")), ("password", hstr("pw"))])))
    );
    assert_eq!(plan("auth_phone", hobj(vec![])), Err("missing phone".to_string()));
    assert_eq!(plan("auth_code", hobj(vec![])), Err("missing code".to_string()));
    assert_eq!(plan("auth_password", hobj(vec![])), Err("missing password".to_string()));
}

#[test]
fn plan_unknown_method() {
    assert_eq!(plan("frobnicate", Json::Null), Err("unknown method: frobnicate".to_string()));
}

#[test]
fn sent_status_value() {
    assert_eq!(sent_status(), hobj(vec![("status", hstr("sent"))]));
}
