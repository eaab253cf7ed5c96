use tg_cli::events::{
    auth_short_name_exec, auth_step, cache_op_for, classify_update, client_event, detect_content_type,
    encryption_key_request, extra_key, message_record_for, route, with_extra, AuthStep, CacheOp, MessageRecord,
    Route,
};
use tg_cli::json::Json;

fn eobj(fields: Vec<(&str, Json)>) -> Json {
    Json::Object(fields.into_iter().map(|(k, v)| (k.to_string(), v)).collect())
}

fn estr(s: &str) -> Json {
    Json::Str(s.to_string())
}

fn tdlib_message(content_type: &str, text: Option<&str>) -> Json {
    let mut content = vec![("@type", estr(content_type))];
    if let Some(t) = text {
        content.push(("text", eobj(vec![("@type", estr("formattedText")), ("text", estr(t))])));
    }
    eobj(vec![
        ("id", Json::Int(101)),
        ("chat_id", Json::Int(-100500)),
        ("sender_id", eobj(vec![("@type", estr("messageSenderUser")), ("user_id", Json::Int(9))])),
        ("date", Json::Int(1_700_000_000)),
        ("is_outgoing", Json::Bool(true)),
        ("content", eobj(content)),
    ])
}

#[test]
fn content_types_of_messages() {
    assert_eq!(detect_content_type(&tdlib_message("messageText", Some("hi"))), "text");
    assert_eq!(detect_content_type(&tdlib_message("messagePhoto", None)), "photo");
    assert_eq!(detect_content_type(&tdlib_message("messageVideo", None)), "video");
    assert_eq!(detect_content_type(&tdlib_message("messageDocument", None)), "document");
    assert_eq!(detect_content_type(&tdlib_message("messageSticker", None)), "sticker");
    assert_eq!(detect_content_type(&tdlib_message("messageVoiceNote", None)), "voice");
    assert_eq!(detect_content_type(&tdlib_message("messageAudio", None)), "voice");
    assert_eq!(detect_content_type(&tdlib_message("messagePoll", None)), "other");
    assert_eq!(detect_content_type(&eobj(vec![])), "text");
}

#[test]
fn new_message_update_upserts_row() {
    let ev = eobj(vec![("@type", estr("updateNewMessage")), ("message", tdlib_message("messageText", Some("hello")))]);
    assert_eq!(
        cache_op_for(&ev),
        Some(CacheOp::UpsertMessage {
            chat_id: -100500,
            msg_id: 101,
            sender_id: Some(9),
            text: Some("hello".to_string()),
            date: 1_700_000_000,
            is_outgoing: true,
            content_type: "text".to_string(),
        })
    );
}

#[test]
fn new_message_caption_used_as_text() {
    let msg = eobj(vec![
        ("id", Json::Int(5)),
        ("chat_id", Json::Int(6)),
        (
            "content",
            eobj(vec![
                ("@type", estr("messagePhoto")),
                ("caption", eobj(vec![("text", estr("sunset"))])),
            ]),
        ),
    ]);
    let ev = eobj(vec![("@type", estr("updateNewMessage")), ("message", msg)]);
    assert_eq!(
        cache_op_for(&ev),
        Some(CacheOp::UpsertMessage {
            chat_id: 6,
            msg_id: 5,
            sender_id: None,
            text: Some("sunset".to_string()),
            date: 0,
            is_outgoing: false,
            content_type: "photo".to_string(),
        })
    );
}

#[test]
fn new_message_without_ids_is_skipped() {
    let msg = eobj(vec![("id", Json::Int(5))]);
    let ev = eobj(vec![("@type", estr("updateNewMessage")), ("message", msg)]);
    assert_eq!(cache_op_for(&ev), None);
}

#[test]
fn chat_last_message_update() {
    let ev = eobj(vec![
        ("@type", estr("updateChatLastMessage")),
        ("chat_id", Json::Int(12)),
        ("last_message", eobj(vec![("id", Json::Int(34))])),
    ]);
    assert_eq!(cache_op_for(&ev), Some(CacheOp::UpdateChatLastMessage { chat_id: 12, msg_id: 34 }));
    let no_msg = eobj(vec![("@type", estr("updateChatLastMessage")), ("chat_id", Json::Int(12))]);
    assert_eq!(cache_op_for(&no_msg), None);
}

#[test]
fn chat_title_update() {
    let ev = eobj(vec![("@type", estr("updateChatTitle")), ("chat_id", Json::Int(12)), ("title", estr("Family"))]);
    assert_eq!(
        cache_op_for(&ev),
        Some(CacheOp::UpsertChat {
            chat_id: 12,
            title: "Family".to_string(),
            kind: "private".to_string(),
            last_msg_id: None,
            unread: 0,
        })
    );
}

#[test]
fn unread_count_update() {
    let ev = eobj(vec![
        ("@type", estr("updateUnreadMessageCount")),
        ("chat_id", Json::Int(3)),
        ("unread_count", Json::Int(17)),
    ]);
    assert_eq!(
        cache_op_for(&ev),
        Some(CacheOp::UpsertChat {
            chat_id: 3,
            title: String::new(),
            kind: "private".to_string(),
            last_msg_id: None,
            unread: 17,
        })
    );
}

#[test]
fn other_updates_write_nothing() {
    assert_eq!(cache_op_for(&eobj(vec![("@type", estr("updateUser"))])), None);
    assert_eq!(cache_op_for(&Json::Null), None);
}

#[test]
fn line_daemon_records_new_message_events() {
    let ev = eobj(vec![
        ("type", estr("event")),
        ("name", estr("new_message")),
        ("data", eobj(vec![("@type", estr("updateNewMessage")), ("message", tdlib_message("messageText", Some("yo")))])),
    ]);
    assert_eq!(
        message_record_for(&ev),
        Some(MessageRecord {
            msg_id: 101,
            chat_id: -100500,
            sender_id: Some(9),
            text: Some("yo".to_string()),
            date: 1_700_000_000,
        })
    );
    let other = eobj(vec![("type", estr("event")), ("name", estr("auth_update")), ("data", eobj(vec![]))]);
    assert_eq!(message_record_for(&other), None);
    let untyped = eobj(vec![
        ("name", estr("new_message")),
        ("data", eobj(vec![("message", tdlib_message("messageText", Some("yo")))])),
    ]);
    assert_eq!(message_record_for(&untyped), None);
}

#[test]
fn broadcast_new_message_events_are_recorded() {
    let update = eobj(vec![("@type", estr("updateNewMessage")), ("message", tdlib_message("messagePhoto", None))]);
    let ev = tg_cli::line_daemon::message_event(update);
    let r = message_record_for(&ev).expect("a row");
    assert_eq!((r.msg_id, r.chat_id, r.text), (101, -100500, None));
}

#[test]
fn auth_short_names() {
    assert_eq!(auth_short_name_exec("authorizationStateWaitPhoneNumber"), "wait_phone");
    assert_eq!(auth_short_name_exec("authorizationStateWaitCode"), "wait_code");
    assert_eq!(auth_short_name_exec("authorizationStateWaitPassword"), "wait_password");
    assert_eq!(auth_short_name_exec("authorizationStateReady"), "ready");
    assert_eq!(auth_short_name_exec("authorizationStateClosing"), "closing");
    assert_eq!(auth_short_name_exec("authorizationStateClosed"), "closed");
    assert_eq!(auth_short_name_exec("authorizationStateWaitRegistration"), "wait_registration");
    assert_eq!(auth_short_name_exec("authorizationStateWaitOtherDeviceConfirmation"), "wait_other_device");
    assert_eq!(auth_short_name_exec("authorizationStateLoggingOut"), "logging_out");
    assert_eq!(auth_short_name_exec("somethingElse"), "somethingElse");
}

#[test]
fn classify_authorization_updates() {
    let ready = eobj(vec![
        ("@type", estr("updateAuthorizationState")),
        ("authorization_state", eobj(vec![("@type", estr("authorizationStateReady"))])),
    ]);
    assert_eq!(
        classify_update(ready),
        (Some(eobj(vec![("type", estr("auth_state")), ("state", estr("ready"))])), true)
    );
    let code = eobj(vec![
        ("@type", estr("updateAuthorizationState")),
        ("authorization_state", eobj(vec![("@type", estr("authorizationStateWaitCode"))])),
    ]);
    assert_eq!(
        classify_update(code),
        (Some(eobj(vec![("type", estr("auth_state")), ("state", estr("wait_code"))])), false)
    );
    let bare = eobj(vec![("@type", estr("updateAuthorizationState"))]);
    assert_eq!(
        classify_update(bare),
        (Some(eobj(vec![("type", estr("auth_state")), ("state", estr("unknown"))])), false)
    );
}

#[test]
fn classify_new_message_and_others() {
    let upd = eobj(vec![("@type", estr("updateNewMessage")), ("message", Json::Null)]);
    let copy = eobj(vec![("@type", estr("updateNewMessage")), ("message", Json::Null)]);
    assert_eq!(
        classify_update(upd),
        (Some(eobj(vec![("type", estr("event")), ("name", estr("new_message")), ("data", copy)])), false)
    );
    assert_eq!(classify_update(eobj(vec![("@type", estr("updateOption"))])), (None, false));
}

#[test]
fn auth_wait_steps() {
    let st = |t: &str| {
        eobj(vec![
            ("@type", estr("updateAuthorizationState")),
            ("authorization_state", eobj(vec![("@type", estr(t))])),
        ])
    };
    assert_eq!(auth_step(&st("authorizationStateReady")), AuthStep::Finish(true));
    assert_eq!(auth_step(&st("authorizationStateClosed")), AuthStep::Finish(false));
    assert_eq!(auth_step(&st("authorizationStateWaitEncryptionKey")), AuthStep::Send(encryption_key_request()));
    assert_eq!(auth_step(&st("authorizationStateWaitPhoneNumber")), AuthStep::Continue);
    assert_eq!(auth_step(&eobj(vec![("@type", estr("updateNewMessage"))])), AuthStep::Continue);
    assert_eq!(
        encryption_key_request(),
        eobj(vec![("@type", estr("setDatabaseEncryptionKey")), ("new_encryption_key", estr(""))])
    );
}

#[test]
fn client_events_carry_name() {
    let ev = eobj(vec![("@type", estr("updateFile")), ("size", Json::Int(3))]);
    let copy = eobj(vec![("@type", estr("updateFile")), ("size", Json::Int(3))]);
    assert_eq!(
        client_event(ev, "@type"),
        eobj(vec![("type", estr("event")), ("name", estr("updateFile")), ("data", copy)])
    );
    let nameless = eobj(vec![("size", Json::Int(3))]);
    let copy2 = eobj(vec![("size", Json::Int(3))]);
    assert_eq!(
        client_event(nameless, "name"),
        eobj(vec![("type", estr("event")), ("name", estr("unknown")), ("data", copy2)])
    );
}

#[test]
fn extra_keys_read_strings_and_integers() {
    assert_eq!(extra_key(&eobj(vec![("@extra", estr("abc"))])), Some("abc".to_string()));
    assert_eq!(extra_key(&eobj(vec![("@extra", Json::Int(-42))])), Some("-42".to_string()));
    assert_eq!(extra_key(&eobj(vec![("@extra", Json::Bool(true))])), None);
    assert_eq!(extra_key(&eobj(vec![])), None);
}

#[test]
fn with_extra_sets_or_replaces_tag() {
    let q = eobj(vec![("@type", estr("getMe"))]);
    let tagged = with_extra(q, "7f".to_string());
    assert_eq!(tagged, eobj(vec![("@type", estr("getMe")), ("@extra", estr("7f"))]));
    assert_eq!(extra_key(&tagged), Some("7f".to_string()));
    let retag = with_extra(tagged, "8a".to_string());
    assert_eq!(retag, eobj(vec![("@type", estr("getMe")), ("@extra", estr("8a"))]));
    assert_eq!(with_extra(Json::Null, "x".to_string()), eobj(vec![("@extra", estr("x"))]));
}

#[test]
fn tdlib_values_are_routed_by_their_tag() {
    let reply = with_extra(eobj(vec![("@type", estr("ok"))]), "q-1".to_string());
    let tag = extra_key(&reply);
    assert_eq!(tag, Some("q-1".to_string()));
    assert_eq!(route(&tag, true), Route::ToCaller);
    assert_eq!(route(&tag, false), Route::Discard);
    let update = eobj(vec![("@type", estr("updateNewMessage"))]);
    assert_eq!(route(&extra_key(&update), false), Route::Broadcast);
}
