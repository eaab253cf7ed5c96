use tg_cli::json::Json;
use tg_cli::protocol::{AuthState, Event, Response, RpcError, ServerMessage};
use tg_cli::tui::{handle_event, handle_key, load_msgs, App, Focus, Key, KeyPress};

fn tobj(fields: Vec<(&str, Json)>) -> Json {
    Json::Object(fields.into_iter().map(|(k, v)| (k.to_string(), v)).collect())
}

fn ts(s: &str) -> Json {
    Json::Str(s.to_string())
}

fn key(k: Key) -> KeyPress {
    KeyPress { key: k, plain: true }
}

fn app_with_chats() -> App {
    let mut a = App::new();
    a.dialogs = vec![(10, "A".to_string(), 0), (20, "B".to_string(), 2), (30, "C".to_string(), 0)];
    a
}

#[test]
fn new_app_state() {
    let a = App::new();
    assert!(a.dialogs.is_empty());
    assert_eq!(a.selected, 0);
    assert!(a.messages.is_empty());
    assert_eq!(a.input, "");
    assert_eq!(a.focus, Focus::Dialogs);
    assert_eq!(a.status, "Starting…");
    assert!(a.running);
    assert_eq!(a.current_chat(), None);
}

#[test]
fn moving_down_loads_next_chat() {
    let mut a = app_with_chats();
    let out = handle_key(&mut a, key(Key::Char('j'))).expect("a request");
    assert_eq!(a.selected, 1);
    assert_eq!(out.method, "get_messages");
    assert_eq!(out.params, tobj(vec![("chat_id", Json::Int(20)), ("limit", Json::Int(200))]));
    handle_key(&mut a, key(Key::Down));
    assert_eq!(a.selected, 2);
    assert!(handle_key(&mut a, key(Key::Down)).is_none());
    assert_eq!(a.selected, 2);
}

#[test]
fn moving_up_stops_at_top() {
    let mut a = app_with_chats();
    assert!(handle_key(&mut a, key(Key::Up)).is_none());
    assert_eq!(a.selected, 0);
    a.selected = 2;
    let out = handle_key(&mut a, key(Key::Char('k'))).expect("a request");
    assert_eq!(a.selected, 1);
    assert_eq!(out.params, tobj(vec![("chat_id", Json::Int(20)), ("limit", Json::Int(200))]));
}

#[test]
fn load_msgs_for_current_chat() {
    let a = app_with_chats();
    let out = load_msgs(&a).expect("a request");
    assert_eq!(out.method, "get_messages");
    assert_eq!(out.params, tobj(vec![("chat_id", Json::Int(10)), ("limit", Json::Int(200))]));
    assert!(load_msgs(&App::new()).is_none());
}

#[test]
fn quitting_and_focus() {
    let mut a = app_with_chats();
    handle_key(&mut a, key(Key::Char('i')));
    assert_eq!(a.focus, Focus::Input);
    handle_key(&mut a, key(Key::Esc));
    assert_eq!(a.focus, Focus::Dialogs);
    handle_key(&mut a, key(Key::Char('/')));
    assert_eq!(a.focus, Focus::Input);
    assert_eq!(a.input, "/");
    let mut b = app_with_chats();
    handle_key(&mut b, key(Key::Char('q')));
    assert!(!b.running);
}

#[test]
fn typing_and_sending() {
    let mut a = app_with_chats();
    a.selected = 1;
    handle_key(&mut a, key(Key::Enter));
    for c in "hey!".chars() {
        handle_key(&mut a, key(Key::Char(c)));
    }
    handle_key(&mut a, KeyPress { key: Key::Char('x'), plain: false });
    assert_eq!(a.input, "hey!");
    handle_key(&mut a, key(Key::Backspace));
    assert_eq!(a.input, "hey");
    let out = handle_key(&mut a, key(Key::Enter)).expect("a send");
    assert_eq!(out.method, "send_message");
    assert_eq!(out.params, tobj(vec![("chat_id", Json::Int(20)), ("text", ts("hey"))]));
    assert_eq!(a.input, "");
    assert!(handle_key(&mut a, key(Key::Enter)).is_none());
}

#[test]
fn slash_q_quits_from_input() {
    let mut a = app_with_chats();
    a.focus = Focus::Input;
    a.input = "/quit".to_string();
    assert!(handle_key(&mut a, key(Key::Enter)).is_none());
    assert!(!a.running);
    assert_eq!(a.input, "");
}

#[test]
fn chat_list_response_fills_dialogs() {
    let mut a = App::new();
    let chats = Json::Array(vec![
        tobj(vec![("id", Json::Int(1)), ("title", ts("One")), ("unread_count", Json::Int(4))]),
        tobj(vec![("id", Json::Int(2))]),
    ]);
    let msg = ServerMessage::Response(Response { id: "1".to_string(), result: Some(chats), error: None });
    handle_event(&msg, &mut a);
    assert_eq!(a.dialogs, vec![(1, "One".to_string(), 4), (2, "?".to_string(), 0)]);
    // A bare array has no "messages": the status then lists its (absent) keys.
    assert_eq!(a.status, "resp keys: []");
}

#[test]
fn cached_rows_leave_the_panes_alone() {
    let mut a = App::new();
    a.dialogs = vec![(7, "Alice".to_string(), 2)];
    let rows = Json::Array(vec![tobj(vec![
        ("chat_id", Json::Int(7)),
        ("message_id", Json::Int(9)),
        ("text", ts("hi")),
        ("date", Json::Int(-1)),
    ])]);
    let msg = ServerMessage::Response(Response { id: "r1".to_string(), result: Some(rows), error: None });
    assert!(tg_cli::tui::event_displayable_exec(&msg));
    handle_event(&msg, &mut a);
    assert_eq!(a.dialogs, vec![(7, "Alice".to_string(), 2)]);
    assert!(a.messages.is_empty());
    assert_eq!(a.selected, 0);
    assert_eq!(a.status, "resp keys: []");
    let empty = ServerMessage::Response(Response { id: "r2".to_string(), result: Some(Json::Array(vec![])), error: None });
    handle_event(&empty, &mut a);
    assert_eq!(a.dialogs, vec![(7, "Alice".to_string(), 2)]);
    assert_eq!(a.status, "resp keys: []");
}

#[test]
fn messages_response_fills_pane() {
    let mut a = App::new();
    let result = tobj(vec![(
        "messages",
        Json::Array(vec![
            tobj(vec![
                ("id", Json::Int(5)),
                ("is_outgoing", Json::Bool(true)),
                ("date", Json::Int(3600)),
                ("content", tobj(vec![("text", tobj(vec![("text", ts("hi"))]))])),
            ]),
            tobj(vec![
                ("id", Json::Int(6)),
                ("sender_id", tobj(vec![("user_id", Json::Int(9))])),
                ("date", Json::Int(0)),
                ("content", tobj(vec![("@type", ts("messagePhoto"))])),
            ]),
        ]),
    )]);
    let msg = ServerMessage::Response(Response { id: "2".to_string(), result: Some(result), error: None });
    handle_event(&msg, &mut a);
    assert_eq!(
        a.messages,
        vec![
            (5, "Me".to_string(), "hi".to_string(), "01:00".to_string()),
            (6, "user#9".to_string(), "📷 photo".to_string(), "00:00".to_string()),
        ]
    );
    assert_eq!(a.status, "2 messages");
}

#[test]
fn other_results_show_their_keys() {
    let mut a = App::new();
    let result = tobj(vec![("ok", Json::Bool(true)), ("id", Json::Int(1))]);
    let msg = ServerMessage::Response(Response { id: "3".to_string(), result: Some(result), error: None });
    handle_event(&msg, &mut a);
    assert_eq!(a.status, "resp keys: [\"ok\", \"id\"]");
}

#[test]
fn errors_events_and_auth_states() {
    let mut a = App::new();
    let msg = ServerMessage::Response(Response {
        id: "4".to_string(),
        result: None,
        error: Some(RpcError { code: -1, message: "boom".to_string() }),
    });
    handle_event(&msg, &mut a);
    assert_eq!(a.status, "❌ boom");
    handle_event(&ServerMessage::Event(Event { name: "new_message".to_string(), data: Json::Null }), &mut a);
    assert_eq!(a.status, "📨 New message");
    handle_event(&ServerMessage::Event(Event { name: "file_update".to_string(), data: Json::Null }), &mut a);
    assert_eq!(a.status, "📨 New message");
    handle_event(&ServerMessage::AuthState(AuthState { state: "wait_code".to_string(), hint: None }), &mut a);
    assert_eq!(a.status, "🔐 wait_code");
}

#[test]
fn screen_of_tg_tui() {
    let mut a = app_with_chats();
    a.selected = 1;
    a.messages = vec![
        (1, "Me".to_string(), "hi".to_string(), "10:23".to_string()),
        (2, "user#5".to_string(), "yo".to_string(), "10:24".to_string()),
    ];
    a.input = "draft".to_string();
    let s = tg_cli::tui::screen(&a);
    assert_eq!(s.header, " 📱 tg tui │ j/k navigate │ i input │ /q quit ");
    let labels: Vec<(String, bool)> = s.chats.iter().map(|r| (r.label.clone(), r.selected)).collect();
    assert_eq!(labels, vec![("A".to_string(), false), ("(2) B".to_string(), true), ("C".to_string(), false)]);
    assert!(s.chats_focused);
    assert!(!s.input_focused);
    assert!(s.lines[0].mine);
    assert!(!s.lines[1].mine);
    assert_eq!(s.lines[1].time, "10:24");
    assert_eq!(s.lines[1].sender, "user#5");
    assert_eq!(s.lines[1].text, "yo");
    assert_eq!(s.input, "> draft█");
    assert_eq!(s.input_title, " Input ");
    assert_eq!(s.status, "Starting…");
}

#[test]
fn down_then_up_returns() {
    let mut a = app_with_chats();
    handle_key(&mut a, key(Key::Down));
    handle_key(&mut a, key(Key::Up));
    assert_eq!(a, app_with_chats());
}

#[test]
fn backspace_takes_back_typed_char() {
    let mut a = app_with_chats();
    a.focus = Focus::Input;
    a.input = "abc".to_string();
    let before = a.input.clone();
    handle_key(&mut a, key(Key::Char('ж')));
    handle_key(&mut a, key(Key::Backspace));
    assert_eq!(a.input, before);
}
