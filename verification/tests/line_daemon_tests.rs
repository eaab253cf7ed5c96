use tg_cli::json::Json;
use tg_cli::line_daemon::{auth_event, message_event, plan_typed, TdAuthState, TdCall, TypedPlan};

fn dobj(fields: Vec<(&str, Json)>) -> Json {
    Json::Object(fields.into_iter().map(|(k, v)| (k.to_string(), v)).collect())
}

fn dstr(s: &str) -> Json {
    Json::Str(s.to_string())
}

fn typed(method: &str, params: Json) -> Result<TypedPlan, String> {
    plan_typed(method, &params, true, "/run/user/1/tg-cli.sock")
}

#[test]
fn typed_status_reports_authorization() {
    assert_eq!(
        typed("status", Json::Null),
        Ok(TypedPlan::Reply(dobj(vec![
            ("authorized", Json::Bool(true)),
            ("socket", dstr("/run/user/1/tg-cli.sock")),
        ])))
    );
    assert_eq!(
        plan_typed("status", &Json::Null, false, "/s"),
        Ok(TypedPlan::Reply(dobj(vec![("authorized", Json::Bool(false)), ("socket", dstr("/s"))])))
    );
}

#[test]
fn typed_calls_with_default_limits() {
    assert_eq!(typed("get_me", Json::Null), Ok(TypedPlan::Call(TdCall::GetMe)));
    assert_eq!(typed("list_dialogs", dobj(vec![])), Ok(TypedPlan::Call(TdCall::GetChats { limit: 20 })));
    assert_eq!(
        typed("get_messages", dobj(vec![("chat_id", Json::Int(4))])),
        Ok(TypedPlan::Call(TdCall::GetChatHistory { chat_id: 4, limit: 20 }))
    );
    assert_eq!(
        typed("search", dobj(vec![("chat_id", Json::Int(4)), ("query", dstr("x")), ("limit", Json::Int(7))])),
        Ok(TypedPlan::Call(TdCall::SearchChatMessages { chat_id: 4, query: "x".to_string(), limit: 7 }))
    );
}

#[test]
fn typed_limits_truncate_to_32_bits() {
    assert_eq!(
        typed("list_dialogs", dobj(vec![("limit", Json::Int(4_294_967_297))])),
        Ok(TypedPlan::Call(TdCall::GetChats { limit: 1 }))
    );
    assert_eq!(
        typed("download_file", dobj(vec![("file_id", Json::Int(-1))])),
        Ok(TypedPlan::Call(TdCall::DownloadFile { file_id: -1 }))
    );
}

#[test]
fn typed_message_calls() {
    assert_eq!(
        typed("send_message", dobj(vec![("chat_id", Json::Int(1)), ("text", dstr("hi"))])),
        Ok(TypedPlan::Call(TdCall::SendMessage { chat_id: 1, text: "hi".to_string() }))
    );
    assert_eq!(
        typed(
            "forward_message",
            dobj(vec![("from_chat_id", Json::Int(1)), ("to_chat_id", Json::Int(2)), ("message_id", Json::Int(3))])
        ),
        Ok(TypedPlan::Call(TdCall::ForwardMessages { chat_id: 2, from_chat_id: 1, message_id: 3 }))
    );
    assert_eq!(
        typed("delete_message", dobj(vec![("chat_id", Json::Int(1)), ("message_id", Json::Int(3))])),
        Ok(TypedPlan::Call(TdCall::DeleteMessages { chat_id: 1, message_id: 3 }))
    );
    assert_eq!(
        typed("mark_read", dobj(vec![("chat_id", Json::Int(1))])),
        Ok(TypedPlan::Call(TdCall::ViewMessages { chat_id: 1 }))
    );
    assert_eq!(typed("logout", Json::Null), Ok(TypedPlan::Call(TdCall::LogOut)));
    assert_eq!(typed("shutdown", Json::Null), Ok(TypedPlan::Shutdown));
}

#[test]
fn typed_refusals() {
    assert_eq!(typed("send_message", dobj(vec![])), Err("missing chat_id".to_string()));
    assert_eq!(
        typed("send_message", dobj(vec![("chat_id", dstr("@alice")), ("text", dstr("Hi there"))])),
        Ok(TypedPlan::Resolve { key: "chat_id".to_string(), username: "alice".to_string() })
    );
    assert_eq!(typed("get_messages", dobj(vec![("chat_id", dstr("@alice"))])), Err("missing chat_id".to_string()));
    assert_eq!(typed("send_message", dobj(vec![("chat_id", Json::Int(1))])), Err("missing text".to_string()));
    assert_eq!(typed("search", dobj(vec![("chat_id", Json::Int(1))])), Err("missing query".to_string()));
    assert_eq!(typed("download_file", dobj(vec![])), Err("missing file_id".to_string()));
    assert_eq!(typed("auth_code", dobj(vec![("code", dstr("1"))])), Err("unknown method: auth_code".to_string()));
}

#[test]
fn typed_auth_events() {
    let (ev, ready) = auth_event(TdAuthState::Ready);
    assert!(ready);
    assert_eq!(
        ev,
        dobj(vec![
            ("type", dstr("event")),
            ("name", dstr("auth_update")),
            ("data", dobj(vec![("state", dstr("ready"))])),
        ])
    );
    let (ev2, ready2) = auth_event(TdAuthState::WaitOtherDeviceConfirmation);
    assert!(!ready2);
    assert_eq!(ev2.get("data"), Some(&dobj(vec![("state", dstr("wait_other_device"))])));
    assert_eq!(auth_event(TdAuthState::WaitCode).0.get("data"), Some(&dobj(vec![("state", dstr("wait_code"))])));
}

#[test]
fn typed_message_events() {
    assert_eq!(
        message_event(Json::Int(1)),
        dobj(vec![("type", dstr("event")), ("name", dstr("new_message")), ("data", Json::Int(1))])
    );
}
