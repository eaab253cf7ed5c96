use tg_cli::cli::{call_step, parse_chat, parse_i64, CallStep};
use tg_cli::events::{extra_key, with_extra};
use tg_cli::handler::plan_request;
use tg_cli::json::Json;
use tg_cli::line_daemon::plan_typed;
use tg_cli::protocol::{response_for, ServerMessage};
use tg_cli::text::i64_to_string;

#[test]
fn printed_ids_parse_back() {
    for n in [0i64, 7, -7, 1234567890, -1001234567890, i64::MAX, i64::MIN] {
        let text = i64_to_string(n);
        assert_eq!(parse_i64(&text), Some(n));
        assert_eq!(parse_chat(&text), Json::Int(n));
    }
}

#[test]
fn both_daemons_refuse_alike() {
    let cases: Vec<(&str, Json)> = vec![
        ("get_messages", Json::Object(vec![])),
        ("send_message", Json::Object(vec![("chat_id".to_string(), Json::Int(1))])),
        ("search", Json::Object(vec![("chat_id".to_string(), Json::Int(1))])),
        ("forward_message", Json::Object(vec![("from_chat_id".to_string(), Json::Int(1))])),
        ("delete_message", Json::Null),
        ("mark_read", Json::Null),
        ("download_file", Json::Null),
        ("nope", Json::Null),
    ];
    for (method, params) in cases {
        let a = plan_request(method, &params, "/s").err();
        let b = plan_typed(method, &params, false, "/s").err();
        assert!(a.is_some());
        assert_eq!(a, b, "{method}");
    }
}

#[test]
fn calls_get_back_the_daemons_answer() {
    let ok = ServerMessage::Response(response_for("q1".to_string(), Ok(Json::Int(9))));
    assert_eq!(call_step(ok, "q1"), CallStep::Done(Ok(Json::Int(9))));
    let err = ServerMessage::Response(response_for("q2".to_string(), Err("missing text".to_string())));
    assert_eq!(call_step(err, "q2"), CallStep::Done(Err("RPC error -1: missing text".to_string())));
    let other = ServerMessage::Response(response_for("q3".to_string(), Ok(Json::Null)));
    assert_eq!(call_step(other, "q1"), CallStep::Skip);
}

#[test]
fn tagged_queries_route_back() {
    for q in [Json::Null, Json::Object(vec![("@type".to_string(), Json::Str("getMe".to_string()))])] {
        let tagged = with_extra(q, "tag-1".to_string());
        assert_eq!(extra_key(&tagged), Some("tag-1".to_string()));
    }
}
