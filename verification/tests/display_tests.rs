use tg_cli::display::{chrono_fmt, detect_content_label, fmt_time, user_label_exec};
use tg_cli::json::Json;

fn dobj(fields: Vec<(&str, Json)>) -> Json {
    Json::Object(fields.into_iter().map(|(k, v)| (k.to_string(), v)).collect())
}

fn content(fields: Vec<(&str, Json)>) -> Json {
    dobj(vec![("content", dobj(fields))])
}

fn ds(s: &str) -> Json {
    Json::Str(s.to_string())
}

#[test]
fn times_in_utc() {
    assert_eq!(fmt_time(0), "00:00");
    assert_eq!(fmt_time(1_700_000_000), "22:13");
    assert_eq!(chrono_fmt(0), "1970-01-01 00:00");
    assert_eq!(chrono_fmt(1_700_000_000), "2023-11-14 22:13");
    assert_eq!(chrono_fmt(86_399), "1970-01-01 23:59");
}

/// The calendar date of `days` after 1970-01-01, computed as the library's
/// contract states it.
fn civil(days: i64) -> (i64, i64, i64) {
    let z = days + 719468;
    let era = z / 146097;
    let doe = z - era * 146097;
    let yoe = (doe - doe / 1460 + doe / 36524 - doe / 146096) / 365;
    let doy = doe - (365 * yoe + yoe / 4 - yoe / 100);
    let mp = (5 * doy + 2) / 153;
    let d = doy - (153 * mp + 2) / 5 + 1;
    let m = if mp < 10 { mp + 3 } else { mp - 9 };
    let y = yoe + era * 400 + if m <= 2 { 1 } else { 0 };
    (y, m, d)
}

#[test]
fn dates_follow_the_gregorian_calendar() {
    assert_eq!(chrono_fmt(951_782_400), "2000-02-29 00:00");
    assert_eq!(chrono_fmt(4_107_542_400), "2100-03-01 00:00");
    assert_eq!(chrono_fmt(253_402_300_799), "9999-12-31 23:59");
    let last: i64 = 253_402_300_799;
    let mut ts: i64 = 0;
    while ts <= last {
        let (y, m, d) = civil(ts / 86400);
        let expected = format!("{:04}-{:02}-{:02} {}", y, m, d, fmt_time(ts));
        assert_eq!(chrono_fmt(ts), expected, "at {ts}");
        ts += 86400 * 29 + 3571;
    }
}

#[test]
fn user_labels() {
    assert_eq!(user_label_exec(42), "user#42");
    assert_eq!(user_label_exec(-7), "user#-7");
}

#[test]
fn content_labels_by_type() {
    assert_eq!(detect_content_label(&content(vec![("@type", ds("messagePhoto"))])), "📷 photo");
    assert_eq!(detect_content_label(&content(vec![("@type", ds("messageVideo"))])), "🎬 video");
    assert_eq!(detect_content_label(&content(vec![("@type", ds("messageVideoNote"))])), "🎥 video note");
    assert_eq!(detect_content_label(&content(vec![("@type", ds("messageAnimation"))])), "🎞️ gif");
    assert_eq!(detect_content_label(&content(vec![("@type", ds("messageVoiceNote"))])), "🎤 voice");
    assert_eq!(detect_content_label(&content(vec![("@type", ds("messageLocation"))])), "📍 location");
    assert_eq!(detect_content_label(&content(vec![("@type", ds("messageContact"))])), "👤 contact");
    assert_eq!(detect_content_label(&content(vec![("@type", ds("messageCall"))])), "📞 call");
    assert_eq!(detect_content_label(&content(vec![("@type", ds("messageGame"))])), "🎮 game");
    assert_eq!(detect_content_label(&content(vec![("@type", ds("messageInvoice"))])), "💰 invoice");
}

#[test]
fn content_labels_with_details() {
    let sticker = content(vec![("@type", ds("messageSticker")), ("sticker", dobj(vec![("emoji", ds("😀"))]))]);
    assert_eq!(detect_content_label(&sticker), "😀 sticker");
    assert_eq!(detect_content_label(&content(vec![("@type", ds("messageSticker"))])), "🏷️ sticker");
    let doc = content(vec![("@type", ds("messageDocument")), ("document", dobj(vec![("file_name", ds("a.pdf"))]))]);
    assert_eq!(detect_content_label(&doc), "📄 a.pdf");
    assert_eq!(detect_content_label(&content(vec![("@type", ds("messageDocument"))])), "📄 file");
    let audio = content(vec![("@type", ds("messageAudio")), ("audio", dobj(vec![("title", ds("Song"))]))]);
    assert_eq!(detect_content_label(&audio), "🎵 Song");
    assert_eq!(detect_content_label(&content(vec![("@type", ds("messageAudio"))])), "🎵 audio");
    let poll = content(vec![
        ("@type", ds("messagePoll")),
        ("poll", dobj(vec![("question", dobj(vec![("text", ds("Lunch?"))]))])),
    ]);
    assert_eq!(detect_content_label(&poll), "📊 Lunch?");
    assert_eq!(detect_content_label(&content(vec![("@type", ds("messagePoll"))])), "📊 poll");
}

#[test]
fn content_labels_fallbacks() {
    assert_eq!(detect_content_label(&dobj(vec![])), "[empty]");
    assert_eq!(detect_content_label(&content(vec![("@type", ds("messageDice"))])), "[Dice]");
    assert_eq!(detect_content_label(&content(vec![("@type", ds("storyThing"))])), "[storyThing]");
}
