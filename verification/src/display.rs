//! Text shown to the user: times, senders, and labels for messages without text.

use vstd::prelude::*;
use crate::json::{Json, JsonView, at, as_str, opt_str, at_ref};
use crate::text::{str_eq, owned, concat, starts_with, is_prefix, i64_to_string, decimal, digit_char};

verus! {

/// The latest time, in seconds after the epoch, that chrono can represent
/// (the last second of year 262142, UTC).
pub const MAX_TIMESTAMP: i64 = 8210266876799;

/// chrono's rendering of the UTC time `ts` seconds after the epoch with `pattern`.
pub uninterp spec fn utc_format(ts: i64, pattern: Seq<char>) -> Seq<char>;

/// `n` (below 100) as two decimal digits.
pub open spec fn two_digits(n: int) -> Seq<char> {
    seq![digit_char((n / 10) as nat), digit_char((n % 10) as nat)]
}

/// The UTC time of day of `ts`, as `%H:%M` writes it.
pub open spec fn clock_text(ts: int) -> Seq<char> {
    two_digits((ts % 86400) / 3600) + ":"@ + two_digits((ts % 3600) / 60)
}

/// The last second of year 9999, UTC: up to it, `%Y` writes four digits.
pub const LAST_FOUR_DIGIT_YEAR_SECOND: i64 = 253402300799;

/// `n` (below 10000) as four decimal digits.
pub open spec fn four_digits(n: int) -> Seq<char> {
    two_digits(n / 100) + two_digits(n % 100)
}

/// The proleptic Gregorian (year, month, day) of `days` days after
/// 1970-01-01, for `days >= 0` (the days-to-civil conversion of the calendar).
pub open spec fn civil_date(days: int) -> (int, int, int) {
    let z = days + 719468;
    let era = z / 146097;
    let doe = z - era * 146097;
    let yoe = (doe - doe / 1460 + doe / 36524 - doe / 146096) / 365;
    let doy = doe - (365 * yoe + yoe / 4 - yoe / 100);
    let mp = (5 * doy + 2) / 153;
    let d = doy - (153 * mp + 2) / 5 + 1;
    let m = if mp < 10 { mp + 3 } else { mp - 9 };
    let y = yoe + era * 400 + if m <= 2 { 1int } else { 0int };
    (y, m, d)
}

/// The UTC date of `ts` as `%Y-%m-%d` writes it, for years up to 9999.
pub open spec fn date_text(ts: int) -> Seq<char> {
    let (y, m, d) = civil_date(ts / 86400);
    four_digits(y) + "-"@ + two_digits(m) + "-"@ + two_digits(d)
}

/// Renders a UNIX time with chrono: `DateTime<Utc>::format(pattern).to_string()`
/// on `UNIX_EPOCH + ts seconds`. The time of day (`%H:%M`) is stated, and so
/// is the date of the longer pattern up to the end of year 9999; past it,
/// where `%Y` writes a signed year, the date is named, not described: it is
/// a function of `ts` alone. Times before the epoch or after `MAX_TIMESTAMP`
/// make that conversion panic, and only the two patterns used here are
/// allowed, since a malformed pattern makes `to_string` panic.
#[verifier::external_body]
fn format_utc(ts: i64, pattern: &str) -> (r: String)
    requires
        0 <= ts <= MAX_TIMESTAMP,
        pattern@ == "%H:%M"@ || pattern@ == "%Y-%m-%d %H:%M"@,
    ensures
        r@ == utc_format(ts, pattern@),
        pattern@ == "%H:%M"@ ==> r@ == clock_text(ts as int),
        pattern@ == "%Y-%m-%d %H:%M"@ ==> r@.len() >= 6 && r@.subrange(r@.len() - 6, r@.len() as int)
            == " "@ + clock_text(ts as int),
        pattern@ == "%Y-%m-%d %H:%M"@ && ts <= LAST_FOUR_DIGIT_YEAR_SECOND ==> r@ == date_text(ts as int)
            + " "@ + clock_text(ts as int),
{
    let t = std::time::UNIX_EPOCH + std::time::Duration::from_secs(ts as u64);
    let dt: chrono::DateTime<chrono::Utc> = t.into();
    dt.format(pattern).to_string()
}

/// A time of day, `HH:MM` in UTC.
pub fn fmt_time(ts: i64) -> (r: String)
    requires
        0 <= ts <= MAX_TIMESTAMP,
    ensures
        r@ == utc_format(ts, "%H:%M"@),
        r@ == clock_text(ts as int),
{
    format_utc(ts, "%H:%M")
}

/// A date and time, `YYYY-MM-DD HH:MM` in UTC.
pub fn chrono_fmt(ts: i64) -> (r: String)
    requires
        0 <= ts <= MAX_TIMESTAMP,
    ensures
        r@ == utc_format(ts, "%Y-%m-%d %H:%M"@),
        r@.len() >= 6,
        r@.subrange(r@.len() - 6, r@.len() as int) == " "@ + clock_text(ts as int),
        ts <= LAST_FOUR_DIGIT_YEAR_SECOND ==> r@ == date_text(ts as int) + " "@ + clock_text(ts as int),
{
    format_utc(ts, "%Y-%m-%d %H:%M")
}

/// The text `format!("{:?}", items)` gives for a list of strings.
pub uninterp spec fn debug_text_list(items: Seq<Seq<char>>) -> Seq<char>;

/// Renders a list of strings with `Debug` (`format!("{:?}", items)`). The
/// result is named, not described: it is a function of the strings alone.
#[verifier::external_body]
pub(crate) fn debug_list(items: &Vec<String>) -> (r: String)
    ensures
        r@ == debug_text_list(items@.map_values(|s: String| s@)),
{
    format!("{:?}", items)
}

/// `user#<id>`.
pub open spec fn user_label(u: i64) -> Seq<char> {
    "user#"@ + decimal(u as int)
}

pub fn user_label_exec(u: i64) -> (r: String)
    ensures
        r@ == user_label(u),
{
    let d = i64_to_string(u);
    concat(owned("user#"), d.as_str())
}

/// `t` without a leading `message`, or `t` itself.
pub open spec fn strip_message_prefix(t: Seq<char>) -> Seq<char> {
    if is_prefix("message"@, t) {
        t.subrange(7, t.len() as int)
    } else {
        t
    }
}

/// The label shown for a message that has no text, by its content type.
pub open spec fn content_label(m: JsonView) -> Seq<char> {
    let content = at(m, "content"@);
    let t = match as_str(at(content, "@type"@)) {
        Some(s) => s,
        None => ""@,
    };
    if t == "messagePhoto"@ {
        "📷 photo"@
    } else if t == "messageVideo"@ {
        "🎬 video"@
    } else if t == "messageVideoNote"@ {
        "🎥 video note"@
    } else if t == "messageAnimation"@ {
        "🎞️ gif"@
    } else if t == "messageSticker"@ {
        str_or(as_str(at(at(content, "sticker"@), "emoji"@)), "🏷️"@) + " sticker"@
    } else if t == "messageDocument"@ {
        "📄 "@ + str_or(as_str(at(at(content, "document"@), "file_name"@)), "file"@)
    } else if t == "messageVoiceNote"@ {
        "🎤 voice"@
    } else if t == "messageAudio"@ {
        "🎵 "@ + str_or(as_str(at(at(content, "audio"@), "title"@)), "audio"@)
    } else if t == "messageLocation"@ {
        "📍 location"@
    } else if t == "messageContact"@ {
        "👤 contact"@
    } else if t == "messagePoll"@ {
        "📊 "@ + str_or(as_str(at(at(at(content, "poll"@), "question"@), "text"@)), "poll"@)
    } else if t == "messageCall"@ {
        "📞 call"@
    } else if t == "messageGame"@ {
        "🎮 game"@
    } else if t == "messageInvoice"@ {
        "💰 invoice"@
    } else if t == ""@ {
        "[empty]"@
    } else {
        "["@ + strip_message_prefix(t) + "]"@
    }
}

pub open spec fn str_or(o: Option<Seq<char>>, d: Seq<char>) -> Seq<char> {
    match o {
        Some(s) => s,
        None => d,
    }
}

fn str_or_exec(o: Option<&String>, d: &str) -> (r: String)
    ensures
        r@ == str_or(
            match o {
                Some(s) => Some(s@),
                None => None,
            },
            d@,
        ),
{
    match o {
        Some(s) => s.clone(),
        None => owned(d),
    }
}

/// Labels a message that has no text by its content type.
pub fn detect_content_label(m: &Json) -> (r: String)
    ensures
        r@ == content_label(m@),
{
    let content = at_ref(Some(m), "content");
    let t = str_or_exec(opt_str(at_ref(content, "@type")), "");
    let ts = t.as_str();
    if str_eq(ts, "messagePhoto") {
        owned("📷 photo")
    } else if str_eq(ts, "messageVideo") {
        owned("🎬 video")
    } else if str_eq(ts, "messageVideoNote") {
        owned("🎥 video note")
    } else if str_eq(ts, "messageAnimation") {
        owned("🎞️ gif")
    } else if str_eq(ts, "messageSticker") {
        let e = str_or_exec(opt_str(at_ref(at_ref(content, "sticker"), "emoji")), "🏷️");
        concat(e, " sticker")
    } else if str_eq(ts, "messageDocument") {
        let n = str_or_exec(opt_str(at_ref(at_ref(content, "document"), "file_name")), "file");
        concat(owned("📄 "), n.as_str())
    } else if str_eq(ts, "messageVoiceNote") {
        owned("🎤 voice")
    } else if str_eq(ts, "messageAudio") {
        let n = str_or_exec(opt_str(at_ref(at_ref(content, "audio"), "title")), "audio");
        concat(owned("🎵 "), n.as_str())
    } else if str_eq(ts, "messageLocation") {
        owned("📍 location")
    } else if str_eq(ts, "messageContact") {
        owned("👤 contact")
    } else if str_eq(ts, "messagePoll") {
        let q = str_or_exec(
            opt_str(at_ref(at_ref(at_ref(content, "poll"), "question"), "text")),
            "poll",
        );
        concat(owned("📊 "), q.as_str())
    } else if str_eq(ts, "messageCall") {
        owned("📞 call")
    } else if str_eq(ts, "messageGame") {
        owned("🎮 game")
    } else if str_eq(ts, "messageInvoice") {
        owned("💰 invoice")
    } else if str_eq(ts, "") {
        owned("[empty]")
    } else {
        let inner = if starts_with(ts, "message") {
            proof {
                reveal_strlit("message");
                assert("message"@.len() == 7);
            }
            owned(ts.substring_char(7, ts.unicode_len()))
        } else {
            owned(ts)
        };
        concat(concat(owned("["), inner.as_str()), "]")
    }
}

} // verus!
