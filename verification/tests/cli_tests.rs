use tg_cli::cli::{
    call_step, command_request, join_text, login_request, login_step, login_trigger, parse_chat, parse_i64,
    CallStep, Command, LoginStep,
};
use tg_cli::json::Json;
use tg_cli::protocol::{AuthState, Event, Response, RpcError, ServerMessage};

fn cobj(fields: Vec<(&str, Json)>) -> Json {
    Json::Object(fields.into_iter().map(|(k, v)| (k.to_string(), v)).collect())
}

fn cs(s: &str) -> Json {
    Json::Str(s.to_string())
}

#[test]
fn parse_i64_like_std() {
    for s in ["0", "42", "-42", "+7", "007", "9223372036854775807", "-9223372036854775808"] {
        assert_eq!(parse_i64(s), s.parse::<i64>().ok(), "{s}");
    }
    for s in ["", "-", "+", "1a", " 1", "1 ", "9223372036854775808", "-9223372036854775809", "--1", "@user"] {
        assert_eq!(parse_i64(s), None, "{s}");
        assert!(s.parse::<i64>().is_err());
    }
}

#[test]
fn chats_by_number_or_name() {
    assert_eq!(parse_chat("-1001234567890"), Json::Int(-1001234567890));
    assert_eq!(parse_chat("@durov"), cs("@durov"));
    assert_eq!(parse_chat("12ab"), cs("12ab"));
}

#[test]
fn join_text_with_spaces() {
    assert_eq!(join_text(&vec!["hello".to_string(), "big".to_string(), "world".to_string()]), "hello big world");
    assert_eq!(join_text(&vec!["solo".to_string()]), "solo");
    assert_eq!(join_text(&vec![]), "");
}

#[test]
fn requests_of_commands() {
    assert_eq!(command_request(&Command::Me), Some(("get_me".to_string(), cobj(vec![]))));
    assert_eq!(
        command_request(&Command::Chats { limit: 30 }),
        Some(("list_dialogs".to_string(), cobj(vec![("limit", Json::Int(30))])))
    );
    assert_eq!(
        command_request(&Command::History { chat: "123".to_string(), limit: 10 }),
        Some(("get_messages".to_string(), cobj(vec![("chat_id", Json::Int(123)), ("limit", Json::Int(10))])))
    );
    assert_eq!(
        command_request(&Command::Send { chat: "@bob".to_string(), text: vec!["hi".to_string(), "bob".to_string()] }),
        Some(("send_message".to_string(), cobj(vec![("chat_id", cs("@bob")), ("text", cs("hi bob"))])))
    );
    assert_eq!(
        command_request(&Command::Search { chat: "5".to_string(), query: "q".to_string(), limit: 3 }),
        Some((
            "search".to_string(),
            cobj(vec![("chat_id", Json::Int(5)), ("query", cs("q")), ("limit", Json::Int(3))])
        ))
    );
    assert_eq!(
        command_request(&Command::Forward { from: "1".to_string(), to: "2".to_string(), msg_id: 3 }),
        Some((
            "forward_message".to_string(),
            cobj(vec![("from_chat_id", Json::Int(1)), ("to_chat_id", Json::Int(2)), ("message_id", Json::Int(3))])
        ))
    );
    assert_eq!(
        command_request(&Command::Delete { chat: "1".to_string(), msg_id: 9 }),
        Some(("delete_message".to_string(), cobj(vec![("chat_id", Json::Int(1)), ("message_id", Json::Int(9))])))
    );
    assert_eq!(
        command_request(&Command::Download { file_id: 55 }),
        Some(("download_file".to_string(), cobj(vec![("file_id", Json::Int(55))])))
    );
    assert_eq!(
        command_request(&Command::Read { chat: "8".to_string() }),
        Some(("mark_read".to_string(), cobj(vec![("chat_id", Json::Int(8))])))
    );
    assert_eq!(command_request(&Command::Status), Some(("status".to_string(), cobj(vec![]))));
    assert_eq!(command_request(&Command::Logout), Some(("logout".to_string(), cobj(vec![]))));
}

#[test]
fn local_commands_send_nothing() {
    assert_eq!(command_request(&Command::Init), None);
    assert_eq!(command_request(&Command::Login), None);
    assert_eq!(command_request(&Command::Tui), None);
    assert_eq!(command_request(&Command::Stop), None);
}

#[test]
fn call_waits_for_its_response() {
    let ev = ServerMessage::Event(Event { name: "new_message".to_string(), data: Json::Null });
    assert_eq!(call_step(ev, "7"), CallStep::Skip);
    let auth = ServerMessage::AuthState(AuthState { state: "ready".to_string(), hint: None });
    assert_eq!(call_step(auth, "7"), CallStep::Skip);
    let other = ServerMessage::Response(Response { id: "6".to_string(), result: Some(Json::Int(1)), error: None });
    assert_eq!(call_step(other, "7"), CallStep::Skip);
    let mine = ServerMessage::Response(Response { id: "7".to_string(), result: Some(Json::Int(1)), error: None });
    assert_eq!(call_step(mine, "7"), CallStep::Done(Ok(Json::Int(1))));
    let empty = ServerMessage::Response(Response { id: "7".to_string(), result: None, error: None });
    assert_eq!(call_step(empty, "7"), CallStep::Done(Ok(Json::Null)));
}

#[test]
fn call_reports_rpc_errors() {
    let failed = ServerMessage::Response(Response {
        id: "7".to_string(),
        result: Some(Json::Int(1)),
        error: Some(RpcError { code: -1, message: "missing chat_id".to_string() }),
    });
    assert_eq!(call_step(failed, "7"), CallStep::Done(Err("RPC error -1: missing chat_id".to_string())));
}

#[test]
fn login_steps() {
    assert_eq!(login_step("ready"), LoginStep::Done);
    assert_eq!(
        login_step("wait_phone"),
        LoginStep::Ask {
            prompt: "📱  Phone number".to_string(),
            id: "login-phone".to_string(),
            method: "auth_phone".to_string(),
            param: "phone".to_string(),
        }
    );
    assert_eq!(
        login_step("wait_code"),
        LoginStep::Ask {
            prompt: "🔑  Code".to_string(),
            id: "login-code".to_string(),
            method: "auth_code".to_string(),
            param: "code".to_string(),
        }
    );
    assert_eq!(
        login_step("wait_password"),
        LoginStep::Ask {
            prompt: "🔒  2FA password".to_string(),
            id: "login-pw".to_string(),
            method: "auth_password".to_string(),
            param: "password".to_string(),
        }
    );
    assert_eq!(login_step("closed"), LoginStep::Show("   Auth state: closed".to_string()));
}

#[test]
fn login_requests() {
    assert_eq!(
        login_request("login-code", "auth_code", "code", "12345"),
        cobj(vec![("id", cs("login-code")), ("method", cs("auth_code")), ("params", cobj(vec![("code", cs("12345"))]))])
    );
    assert_eq!(
        login_trigger(),
        cobj(vec![("id", cs("login-trigger")), ("method", cs("auth_trigger")), ("params", cobj(vec![]))])
    );
}
