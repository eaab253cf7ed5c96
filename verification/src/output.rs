//! Pretty-printing of daemon responses for `tg`: the lines each command
//! prints for the value the daemon answered with.

use vstd::prelude::*;
use crate::json::{Json, JsonView, at, get, as_i64, as_str, at_ref, opt_i64, opt_str, items_view, lemma_items_view};
use crate::text::{owned, concat, decimal, i64_to_string, usize_to_string, push_char, is_prefix};
use crate::display::{chrono_fmt, utc_format, MAX_TIMESTAMP, user_label, user_label_exec, str_or};
use crate::events::int_or_zero;
use crate::cli::Command;

verus! {

/// One printed line: plain text, or a prefix followed by a JSON value as
/// `serde_json` displays it.
#[derive(Debug, PartialEq)]
pub enum OutLine {
    Text(String),
    Value(String, Json),
}

pub enum OutLineView {
    Text(Seq<char>),
    Value(Seq<char>, JsonView),
}

impl View for OutLine {
    type V = OutLineView;

    open spec fn view(&self) -> OutLineView {
        match self {
            OutLine::Text(s) => OutLineView::Text(s@),
            OutLine::Value(p, v) => OutLineView::Value(p@, v@),
        }
    }
}

pub open spec fn lines_view(v: Seq<OutLine>) -> Seq<OutLineView> {
    Seq::new(v.len(), |i: int| v[i]@)
}

pub open spec fn text(s: Seq<char>) -> OutLineView {
    OutLineView::Text(s)
}

/// `s` right-aligned in a field of 3 characters (`{:>3}`).
pub open spec fn pad3(s: Seq<char>) -> Seq<char> {
    if s.len() >= 3 {
        s
    } else if s.len() == 2 {
        seq![' '] + s
    } else if s.len() == 1 {
        seq![' ', ' '] + s
    } else {
        seq![' ', ' ', ' ']
    }
}

fn pad3_exec(s: String) -> (r: String)
    ensures
        r@ == pad3(s@),
{
    let n = s.unicode_len();
    if n >= 3 {
        s
    } else {
        let mut out = String::new();
        let mut k: usize = n;
        while k < 3
            invariant
                n <= k <= 3,
                out@ == Seq::new((k - n) as nat, |i: int| ' '),
            decreases 3 - k,
        {
            push_char(&mut out, ' ');
            assert(out@ =~= Seq::new((k + 1 - n) as nat, |i: int| ' '));
            k = k + 1;
        }
        let r = concat(out, s.as_str());
        proof {
            if n == 2 {
                assert(r@ =~= seq![' '] + s@);
            } else if n == 1 {
                assert(r@ =~= seq![' ', ' '] + s@);
            } else {
                assert(r@ =~= seq![' ', ' ', ' ']);
            }
        }
        r
    }
}

/// The numbered prefix of a list line: two spaces, the number right-aligned in 3, a dot, a space.
pub open spec fn item_prefix(n: int) -> Seq<char> {
    "  "@ + pad3(decimal(n)) + ". "@
}

pub(crate) fn item_prefix_exec(n: usize) -> (r: String)
    ensures
        r@ == item_prefix(n as int),
{
    let p = concat(owned("  "), pad3_exec(usize_to_string(n)).as_str());
    concat(p, ". ")
}

/// `s` left-aligned in a field of `w` characters (`{:<w}`).
pub open spec fn pad_right(s: Seq<char>, w: nat) -> Seq<char> {
    if s.len() >= w {
        s
    } else {
        s + Seq::new((w - s.len()) as nat, |i: int| ' ')
    }
}

fn pad_right_exec(s: String, w: usize) -> (r: String)
    ensures
        r@ == pad_right(s@, w as nat),
{
    let n = s.unicode_len();
    if n >= w {
        return s;
    }
    let mut out = s;
    let mut k: usize = n;
    while k < w
        invariant
            n <= k <= w,
            n == s@.len(),
            out@ == s@ + Seq::new((k - n) as nat, |i: int| ' '),
        decreases w - k,
    {
        push_char(&mut out, ' ');
        assert(out@ =~= s@ + Seq::new((k + 1 - n) as nat, |i: int| ' '));
        k = k + 1;
    }
    out
}

// ── Chats ──────────────────────────────────────────────────────────

/// The line for one chat of a cached chat list.
pub open spec fn chat_row(i: int, item: JsonView) -> Seq<char> {
    let unread = int_or_zero(at(item, "unread_count"@));
    let prefix = if unread > 0 {
        "("@ + decimal(unread as int) + ") "@
    } else {
        ""@
    };
    item_prefix(i + 1) + pad_right(prefix + str_or(as_str(at(item, "title"@)), "?"@), 17) + "  ["@
        + decimal(int_or_zero(at(item, "id"@)) as int) + "]"@
}

pub open spec fn chats_header(n: int) -> Seq<char> {
    "📋  "@ + decimal(n) + " chats:\n"@
}

/// The lines of a chat listing.
pub open spec fn dialogs_lines(result: JsonView) -> Seq<OutLineView> {
    match result {
        JsonView::Array(arr) => if arr.len() == 0 {
            seq![text("(no chats)"@)]
        } else {
            seq![text(chats_header(arr.len() as int))] + Seq::new(
                arr.len(),
                |i: int| text(chat_row(i, arr[i])),
            )
        },
        _ => match get(result, "chat_ids"@) {
            Some(JsonView::Array(ids)) => seq![text(chats_header(ids.len() as int))] + Seq::new(
                ids.len(),
                |i: int| OutLineView::Value(item_prefix(i + 1), ids[i]),
            ),
            _ => seq![text("(no chats)"@)],
        },
    }
}

/// The text `pad_right` pads begins with that text.
proof fn lemma_pad_right_keeps(s: Seq<char>, w: nat)
    ensures
        is_prefix(s, pad_right(s, w)),
{
    if s.len() < w {
        assert((s + Seq::new((w - s.len()) as nat, |i: int| ' ')).subrange(0, s.len() as int) =~= s);
    } else {
        assert(s.subrange(0, s.len() as int) =~= s);
    }
}

/// A chat's line in `tg chats` is numbered, shows `(n) ` before the title
/// exactly when the chat has `n > 0` unread messages (the title alone
/// otherwise, `?` where it has none), and ends with the chat's id in brackets.
pub proof fn lemma_chat_row_shows_unread(i: int, item: JsonView)
    ensures
        ({
            let n = int_or_zero(at(item, "unread_count"@));
            let title = str_or(as_str(at(item, "title"@)), "?"@);
            let row = chat_row(i, item);
            let p = item_prefix(i + 1);
            let tail = "  ["@ + decimal(int_or_zero(at(item, "id"@)) as int) + "]"@;
            &&& is_prefix(p, row)
            &&& n > 0 ==> is_prefix("("@ + decimal(n as int) + ") "@ + title, row.skip(p.len() as int))
            &&& n <= 0 ==> is_prefix(title, row.skip(p.len() as int))
            &&& row.len() >= tail.len() && row.skip(row.len() - tail.len()) == tail
        }),
{
    let n = int_or_zero(at(item, "unread_count"@));
    let title = str_or(as_str(at(item, "title"@)), "?"@);
    let prefix = if n > 0 {
        "("@ + decimal(n as int) + ") "@
    } else {
        ""@
    };
    let label = prefix + title;
    let padded = pad_right(label, 17);
    let p = item_prefix(i + 1);
    let tail = "  ["@ + decimal(int_or_zero(at(item, "id"@)) as int) + "]"@;
    let row = chat_row(i, item);
    assert(row == p + padded + tail);
    lemma_pad_right_keeps(label, 17);
    assert(row.subrange(0, p.len() as int) =~= p);
    assert(row.skip(p.len() as int) =~= padded + tail);
    assert((padded + tail).subrange(0, label.len() as int) =~= padded.subrange(0, label.len() as int));
    if n <= 0 {
        reveal_strlit("");
        assert(label =~= title);
    }
    assert(row.skip(row.len() - tail.len()) =~= tail);
}

fn chat_row_exec(i: usize, item: &Json) -> (r: String)
    requires
        i < usize::MAX,
    ensures
        r@ == chat_row(i as int, item@),
{
    let it = Some(item);
    let unread = match opt_i64(at_ref(it, "unread_count")) {
        Some(n) => n,
        None => 0,
    };
    let prefix = if unread > 0 {
        concat(concat(owned("("), i64_to_string(unread).as_str()), ") ")
    } else {
        owned("")
    };
    let title = match opt_str(at_ref(it, "title")) {
        Some(t) => t.clone(),
        None => owned("?"),
    };
    let id = match opt_i64(at_ref(it, "id")) {
        Some(n) => n,
        None => 0,
    };
    let cell = pad_right_exec(concat(prefix, title.as_str()), 17);
    let s = concat(item_prefix_exec(i + 1), cell.as_str());
    let s = concat(s, "  [");
    let s = concat(s, i64_to_string(id).as_str());
    concat(s, "]")
}

fn chats_header_exec(n: usize) -> (r: String)
    ensures
        r@ == chats_header(n as int),
{
    concat(concat(owned("📋  "), usize_to_string(n).as_str()), " chats:\n")
}

/// The lines `tg chats` prints.
pub fn print_dialogs(result: &Json) -> (r: Vec<OutLine>)
    ensures
        lines_view(r@) == dialogs_lines(result@),
{
    let mut out: Vec<OutLine> = Vec::new();
    match result.as_array() {
        Some(arr) => {
            proof {
                lemma_items_view(arr@, arr@.len());
            }
            let ghost g = items_view(arr@, arr@.len());
            if arr.len() == 0 {
                out.push(OutLine::Text(owned("(no chats)")));
                assert(lines_view(out@) =~= seq![text("(no chats)"@)]);
                return out;
            }
            out.push(OutLine::Text(chats_header_exec(arr.len())));
            let mut i: usize = 0;
            while i < arr.len()
                invariant
                    i <= arr@.len(),
                    g == items_view(arr@, arr@.len()),
                    g.len() == arr@.len(),
                    forall|k: int| 0 <= k < arr@.len() ==> #[trigger] g[k] == arr@[k]@,
                    out@.len() == i + 1,
                    lines_view(out@) =~= seq![text(chats_header(arr@.len() as int))] + Seq::new(
                        i as nat,
                        |k: int| text(chat_row(k, g[k])),
                    ),
                decreases arr.len() - i,
            {
                let row = chat_row_exec(i, &arr[i]);
                let ghost old_out = out@;
                out.push(OutLine::Text(row));
                proof {
                    assert(g[i as int] == arr@[i as int]@);
                    let tgt = seq![text(chats_header(arr@.len() as int))] + Seq::new(
                        (i + 1) as nat,
                        |k: int| text(chat_row(k, g[k])),
                    );
                    let prev = seq![text(chats_header(arr@.len() as int))] + Seq::new(
                        i as nat,
                        |k: int| text(chat_row(k, g[k])),
                    );
                    assert forall|k: int| 0 <= k < i + 2 implies lines_view(out@)[k] == tgt[k] by {
                        if k < i + 1 {
                            assert(out@[k] == old_out[k]);
                            assert(lines_view(old_out)[k] == prev[k]);
                        }
                    }
                    assert(lines_view(out@) =~= tgt);
                }
                i = i + 1;
            }
            out
        },
        None => {
            let ids = match result.get("chat_ids") {
                Some(v) => v.as_array(),
                None => None,
            };
            match ids {
                Some(ids) => {
                    proof {
                        lemma_items_view(ids@, ids@.len());
                    }
                    let ghost g = items_view(ids@, ids@.len());
                    out.push(OutLine::Text(chats_header_exec(ids.len())));
                    let mut i: usize = 0;
                    while i < ids.len()
                        invariant
                            i <= ids@.len(),
                            g == items_view(ids@, ids@.len()),
                            g.len() == ids@.len(),
                            forall|k: int| 0 <= k < ids@.len() ==> #[trigger] g[k] == ids@[k]@,
                            out@.len() == i + 1,
                            lines_view(out@) =~= seq![text(chats_header(ids@.len() as int))]
                                + Seq::new(
                                i as nat,
                                |k: int| OutLineView::Value(item_prefix(k + 1), g[k]),
                            ),
                        decreases ids.len() - i,
                    {
                        let p = item_prefix_exec(i + 1);
                        let v = ids[i].clone();
                        let ghost old_out = out@;
                        out.push(OutLine::Value(p, v));
                        proof {
                            assert(g[i as int] == ids@[i as int]@);
                            let tgt = seq![text(chats_header(ids@.len() as int))] + Seq::new(
                                (i + 1) as nat,
                                |k: int| OutLineView::Value(item_prefix(k + 1), g[k]),
                            );
                            let prev = seq![text(chats_header(ids@.len() as int))] + Seq::new(
                                i as nat,
                                |k: int| OutLineView::Value(item_prefix(k + 1), g[k]),
                            );
                            assert forall|k: int| 0 <= k < i + 2 implies lines_view(out@)[k] == tgt[k] by {
                                if k < i + 1 {
                                    assert(out@[k] == old_out[k]);
                                    assert(lines_view(old_out)[k] == prev[k]);
                                }
                            }
                            assert(lines_view(out@) =~= tgt);
                        }
                        i = i + 1;
                    }
                    out
                },
                None => {
                    out.push(OutLine::Text(owned("(no chats)")));
                    assert(lines_view(out@) =~= seq![text("(no chats)"@)]);
                    out
                },
            }
        },
    }
}

// ── Messages ───────────────────────────────────────────────────────

/// A message's two lines: `[time] sender #id`, then the text indented.
pub open spec fn message_pair(id: i64, sender: Seq<char>, body: Seq<char>, ts: i64) -> (Seq<char>, Seq<char>) {
    (
        "["@ + utc_format(ts, "%Y-%m-%d %H:%M"@) + "] "@ + sender + " #"@ + decimal(id as int),
        "  "@ + body,
    )
}

/// Sender of a cached message row (or of a TDLib message).
pub open spec fn row_sender(m: JsonView) -> Seq<char> {
    match as_i64(at(m, "sender_id"@)) {
        Some(u) => user_label(u),
        None => match as_i64(at(at(m, "sender_id"@), "user_id"@)) {
            Some(u) => user_label(u),
            None => "system"@,
        },
    }
}

/// Text of a cached message row (or of a TDLib message).
pub open spec fn row_text(m: JsonView) -> Seq<char> {
    match as_str(at(m, "text"@)) {
        Some(t) => t,
        None => str_or(as_str(at(at(at(m, "content"@), "text"@), "text"@)), "[media]"@),
    }
}

/// The two lines for one cached message row.
pub open spec fn row_pair(m: JsonView) -> (Seq<char>, Seq<char>) {
    message_pair(int_or_zero(at(m, "message_id"@)), row_sender(m), row_text(m), int_or_zero(at(m, "date"@)))
}

/// The two lines for one TDLib message.
pub open spec fn tdlib_pair(m: JsonView) -> (Seq<char>, Seq<char>) {
    message_pair(
        int_or_zero(at(m, "id"@)),
        match as_i64(at(at(m, "sender_id"@), "user_id"@)) {
            Some(u) => user_label(u),
            None => "system"@,
        },
        str_or(as_str(at(at(at(m, "content"@), "text"@), "text"@)), "[media]"@),
        int_or_zero(at(m, "date"@)),
    )
}

/// Each pair of lines followed by an empty line.
pub open spec fn flatten_spaced(ps: Seq<(Seq<char>, Seq<char>)>) -> Seq<OutLineView> {
    Seq::new(
        3 * ps.len(),
        |k: int| if k % 3 == 0 {
            text(ps[k / 3].0)
        } else if k % 3 == 1 {
            text(ps[k / 3].1)
        } else {
            text(""@)
        },
    )
}

pub open spec fn dated(m: JsonView) -> bool {
    0 <= int_or_zero(at(m, "date"@)) <= MAX_TIMESTAMP
}

/// Every message a result lists has a date that can be printed.
pub open spec fn messages_printable(result: JsonView) -> bool {
    match result {
        JsonView::Array(arr) => forall|k: int| 0 <= k < arr.len() ==> #[trigger] dated(arr[k]),
        _ => match get(result, "messages"@) {
            Some(JsonView::Array(ms)) => forall|k: int| 0 <= k < ms.len() ==> #[trigger] dated(ms[k]),
            _ => true,
        },
    }
}

proof fn lemma_printable_array(r: JsonView, g: Seq<JsonView>)
    requires
        messages_printable(r),
        r == JsonView::Array(g),
    ensures
        forall|k: int| 0 <= k < g.len() ==> #[trigger] dated(g[k]),
{
    assert forall|k: int| 0 <= k < g.len() implies #[trigger] dated(g[k]) by {
        assert(r->Array_0 == g);
        assert(r->Array_0[k] == g[k]);
    }
}

proof fn lemma_printable_messages(r: JsonView, g: Seq<JsonView>)
    requires
        messages_printable(r),
        !(r is Array),
        get(r, "messages"@) == Some(JsonView::Array(g)),
    ensures
        forall|k: int| 0 <= k < g.len() ==> #[trigger] dated(g[k]),
{
    assert forall|k: int| 0 <= k < g.len() implies #[trigger] dated(g[k]) by {
        let mv = get(r, "messages"@)->Some_0;
        assert(mv->Array_0 == g);
        assert(mv->Array_0[k] == g[k]);
    }
}

/// The lines of a message listing, oldest first: the cache gives its rows
/// newest first, as does TDLib's `messages`, so both are printed in reverse.
pub open spec fn messages_lines(result: JsonView) -> Seq<OutLineView> {
    match result {
        JsonView::Array(arr) => if arr.len() == 0 {
            seq![text("(no messages)"@)]
        } else {
            flatten_spaced(Seq::new(arr.len(), |i: int| row_pair(arr[arr.len() - 1 - i])))
        },
        _ => match get(result, "messages"@) {
            Some(JsonView::Array(ms)) => flatten_spaced(
                Seq::new(ms.len(), |i: int| tdlib_pair(ms[ms.len() - 1 - i])),
            ),
            _ => seq![text("(no messages)"@)],
        },
    }
}

pub(crate) fn message_pair_exec(id: i64, sender: String, body: String, ts: i64) -> (r: (String, String))
    requires
        0 <= ts <= MAX_TIMESTAMP,
    ensures
        (r.0@, r.1@) == message_pair(id, sender@, body@, ts),
{
    let a = concat(owned("["), chrono_fmt(ts).as_str());
    let a = concat(a, "] ");
    let a = concat(a, sender.as_str());
    let a = concat(a, " #");
    let a = concat(a, i64_to_string(id).as_str());
    (a, concat(owned("  "), body.as_str()))
}

pub(crate) fn i64_or_zero(j: Option<&Json>) -> (r: i64)
    ensures
        r == int_or_zero(crate::json::or_null(crate::json::opt_view(j))),
{
    match opt_i64(j) {
        Some(n) => n,
        None => 0,
    }
}

fn row_pair_exec(m: &Json) -> (r: (String, String))
    requires
        dated(m@),
    ensures
        (r.0@, r.1@) == row_pair(m@),
{
    let mm = Some(m);
    let id = i64_or_zero(at_ref(mm, "message_id"));
    let sender = match opt_i64(at_ref(mm, "sender_id")) {
        Some(u) => user_label_exec(u),
        None => match opt_i64(at_ref(at_ref(mm, "sender_id"), "user_id")) {
            Some(u) => user_label_exec(u),
            None => owned("system"),
        },
    };
    let body = match opt_str(at_ref(mm, "text")) {
        Some(t) => t.clone(),
        None => match opt_str(at_ref(at_ref(at_ref(mm, "content"), "text"), "text")) {
            Some(t) => t.clone(),
            None => owned("[media]"),
        },
    };
    let ts = i64_or_zero(at_ref(mm, "date"));
    message_pair_exec(id, sender, body, ts)
}

fn tdlib_pair_exec(m: &Json) -> (r: (String, String))
    requires
        dated(m@),
    ensures
        (r.0@, r.1@) == tdlib_pair(m@),
{
    let mm = Some(m);
    let id = i64_or_zero(at_ref(mm, "id"));
    let sender = match opt_i64(at_ref(at_ref(mm, "sender_id"), "user_id")) {
        Some(u) => user_label_exec(u),
        None => owned("system"),
    };
    let body = match opt_str(at_ref(at_ref(at_ref(mm, "content"), "text"), "text")) {
        Some(t) => t.clone(),
        None => owned("[media]"),
    };
    let ts = i64_or_zero(at_ref(mm, "date"));
    message_pair_exec(id, sender, body, ts)
}

/// Appends a pair of lines and an empty line.
pub(crate) fn push_spaced(out: &mut Vec<OutLine>, p: (String, String), Ghost(ps): Ghost<Seq<(Seq<char>, Seq<char>)>>)
    requires
        lines_view(old(out)@) =~= flatten_spaced(ps),
    ensures
        lines_view(final(out)@) =~= flatten_spaced(ps.push((p.0@, p.1@))),
{
    let ghost old_out = out@;
    let ghost a = p.0@;
    let ghost b = p.1@;
    assert(lines_view(old_out).len() == old_out.len());
    assert(old_out.len() == 3 * ps.len());
    let blank = String::new();
    let ghost l0 = OutLine::Text(p.0);
    let ghost l1 = OutLine::Text(p.1);
    let ghost l2 = OutLine::Text(blank);
    out.push(OutLine::Text(p.0));
    out.push(OutLine::Text(p.1));
    out.push(OutLine::Text(blank));
    proof {
        reveal_strlit("");
        assert(""@.len() == 0);
        assert(out@ =~= old_out.push(l0).push(l1).push(l2));
        assert(out@.len() == old_out.len() + 3);
        let tgt = flatten_spaced(ps.push((a, b)));
        assert forall|k: int| 0 <= k < 3 * ps.len() + 3 implies lines_view(out@)[k] == tgt[k] by {
            if k < 3 * ps.len() {
                assert(out@[k] == old_out[k]);
                assert(lines_view(old_out)[k] == flatten_spaced(ps)[k]);
                assert(k / 3 < ps.len()) by (nonlinear_arith)
                    requires
                        0 <= k < 3 * ps.len(),
                ;
            } else if k == 3 * ps.len() {
                assert(k % 3 == 0 && k / 3 == ps.len()) by (nonlinear_arith)
                    requires
                        k == 3 * ps.len(),
                ;
            } else if k == 3 * ps.len() + 1 {
                assert(k % 3 == 1 && k / 3 == ps.len()) by (nonlinear_arith)
                    requires
                        k == 3 * ps.len() + 1,
                ;
            } else {
                assert(k % 3 == 2 && k / 3 == ps.len()) by (nonlinear_arith)
                    requires
                        k == 3 * ps.len() + 2,
                ;
                assert(blank@ =~= ""@);
            }
        }
        assert(lines_view(out@) =~= tgt);
    }
}

/// The lines `tg history` and `tg search` print.
pub fn print_messages(result: &Json) -> (r: Vec<OutLine>)
    requires
        messages_printable(result@),
    ensures
        lines_view(r@) == messages_lines(result@),
{
    let mut out: Vec<OutLine> = Vec::new();
    match result.as_array() {
        Some(arr) => {
            proof {
                lemma_items_view(arr@, arr@.len());
            }
            let ghost g = items_view(arr@, arr@.len());
            if arr.len() == 0 {
                out.push(OutLine::Text(owned("(no messages)")));
                assert(lines_view(out@) =~= seq![text("(no messages)"@)]);
                return out;
            }
            let n = arr.len();
            let mut i: usize = 0;
            assert(result@ == JsonView::Array(g));
            proof {
                lemma_printable_array(result@, g);
            }
            assert(lines_view(out@) =~= flatten_spaced(Seq::new(0, |k: int| row_pair(g[n - 1 - k]))));
            while i < n
                invariant
                    n == arr@.len(),
                    i <= n,
                    g == items_view(arr@, arr@.len()),
                    g.len() == n,
                    forall|k: int| 0 <= k < n ==> #[trigger] g[k] == arr@[k]@,
                    forall|k: int| 0 <= k < g.len() ==> #[trigger] dated(g[k]),
                    lines_view(out@) =~= flatten_spaced(
                        Seq::new(i as nat, |k: int| row_pair(g[n - 1 - k])),
                    ),
                decreases n - i,
            {
                let j = n - 1 - i;
                assert(g[j as int] == arr@[j as int]@);
                assert(dated(g[j as int]));
                let p = row_pair_exec(&arr[j]);
                push_spaced(&mut out, p, Ghost(Seq::new(i as nat, |k: int| row_pair(g[n - 1 - k]))));
                assert(Seq::new(i as nat, |k: int| row_pair(g[n - 1 - k])).push(row_pair(g[j as int]))
                    =~= Seq::new((i + 1) as nat, |k: int| row_pair(g[n - 1 - k])));
                i = i + 1;
            }
            out
        },
        None => {
            let mv = result.get("messages");
            let ms = match mv {
                Some(v) => v.as_array(),
                None => None,
            };
            match ms {
                Some(ms) => {
                    proof {
                        lemma_items_view(ms@, ms@.len());
                    }
                    let ghost g = items_view(ms@, ms@.len());
                    assert(!(result@ is Array));
                    assert(get(result@, "messages"@) == Some(JsonView::Array(g)));
                    proof {
                        lemma_printable_messages(result@, g);
                    }
                    let n = ms.len();
                    let mut i: usize = 0;
                    assert(lines_view(out@) =~= flatten_spaced(
                        Seq::new(0, |k: int| tdlib_pair(g[n - 1 - k])),
                    ));
                    while i < n
                        invariant
                            n == ms@.len(),
                            i <= n,
                            g == items_view(ms@, ms@.len()),
                            g.len() == n,
                            forall|k: int| 0 <= k < n ==> #[trigger] g[k] == ms@[k]@,
                            forall|k: int| 0 <= k < g.len() ==> #[trigger] dated(g[k]),
                            lines_view(out@) =~= flatten_spaced(
                                Seq::new(i as nat, |k: int| tdlib_pair(g[n - 1 - k])),
                            ),
                        decreases n - i,
                    {
                        let j = n - 1 - i;
                        assert(g[j as int] == ms@[j as int]@);
                        assert(dated(g[j as int]));
                        let p = tdlib_pair_exec(&ms[j]);
                        push_spaced(
                            &mut out,
                            p,
                            Ghost(Seq::new(i as nat, |k: int| tdlib_pair(g[n - 1 - k]))),
                        );
                        assert(Seq::new(i as nat, |k: int| tdlib_pair(g[n - 1 - k])).push(
                            tdlib_pair(g[j as int]),
                        ) =~= Seq::new((i + 1) as nat, |k: int| tdlib_pair(g[n - 1 - k])));
                        i = i + 1;
                    }
                    out
                },
                None => {
                    out.push(OutLine::Text(owned("(no messages)")));
                    assert(lines_view(out@) =~= seq![text("(no messages)"@)]);
                    out
                },
            }
        },
    }
}

// ── Results of commands ────────────────────────────────────────────

pub open spec fn me_line(result: JsonView) -> Seq<char> {
    "👤  "@ + str_or(as_str(at(result, "first_name"@)), ""@) + " "@ + str_or(
        as_str(at(result, "last_name"@)),
        ""@,
    ) + " (@"@ + str_or(as_str(at(result, "username"@)), "?"@) + ")  id="@ + decimal(
        int_or_zero(at(result, "id"@)) as int,
    )
}

/// The lines a command prints for the daemon's result.
pub open spec fn result_lines(cmd: Command, result: JsonView) -> Seq<OutLineView> {
    match cmd {
        Command::Status => seq![text("Socket: "@ + str_or(as_str(at(result, "socket"@)), "?"@))],
        Command::Me => seq![text(me_line(result))],
        Command::Chats { .. } => dialogs_lines(result),
        Command::History { .. } | Command::Search { .. } => messages_lines(result),
        Command::Send { .. } => seq![
            text("✅  Sent (#"@ + decimal(int_or_zero(at(result, "id"@)) as int) + ")"@),
        ],
        Command::Download { .. } => seq![
            text(
                "✅  Downloaded to "@ + str_or(as_str(at(at(result, "local"@), "path"@)), "?"@),
            ),
        ],
        Command::Forward { .. } | Command::Delete { .. } | Command::Read { .. } | Command::Logout
        | Command::Stop => seq![text("✅  Done."@)],
        Command::Init | Command::Login | Command::Tui => Seq::empty(),
    }
}

/// A result can be printed for a command: listed messages have printable dates.
pub open spec fn result_printable(cmd: Command, result: JsonView) -> bool {
    (cmd is History || cmd is Search) ==> messages_printable(result)
}

pub(crate) fn str_field_or(j: &Json, k: &str, d: &str) -> (r: String)
    ensures
        r@ == str_or(as_str(at(j@, k@)), d@),
{
    match opt_str(at_ref(Some(j), k)) {
        Some(s) => s.clone(),
        None => owned(d),
    }
}

pub(crate) fn one_line(s: String) -> (r: Vec<OutLine>)
    ensures
        lines_view(r@) == seq![text(s@)],
{
    let mut v: Vec<OutLine> = Vec::new();
    v.push(OutLine::Text(s));
    assert(lines_view(v@) =~= seq![text(s@)]);
    v
}

/// The lines a command prints for the value the daemon answered with.
pub fn print_result(cmd: &Command, result: &Json) -> (r: Vec<OutLine>)
    requires
        result_printable(*cmd, result@),
    ensures
        lines_view(r@) == result_lines(*cmd, result@),
{
    match cmd {
        Command::Status => one_line(concat(owned("Socket: "), str_field_or(result, "socket", "?").as_str())),
        Command::Me => {
            let f = str_field_or(result, "first_name", "");
            let l = str_field_or(result, "last_name", "");
            let u = str_field_or(result, "username", "?");
            let id = i64_or_zero(at_ref(Some(result), "id"));
            let s = concat(owned("👤  "), f.as_str());
            let s = concat(s, " ");
            let s = concat(s, l.as_str());
            let s = concat(s, " (@");
            let s = concat(s, u.as_str());
            let s = concat(s, ")  id=");
            one_line(concat(s, i64_to_string(id).as_str()))
        },
        Command::Chats { .. } => print_dialogs(result),
        Command::History { .. } | Command::Search { .. } => print_messages(result),
        Command::Send { .. } => {
            let id = i64_or_zero(at_ref(Some(result), "id"));
            one_line(concat(concat(owned("✅  Sent (#"), i64_to_string(id).as_str()), ")"))
        },
        Command::Download { .. } => {
            let p = match opt_str(at_ref(at_ref(Some(result), "local"), "path")) {
                Some(s) => s.clone(),
                None => owned("?"),
            };
            one_line(concat(owned("✅  Downloaded to "), p.as_str()))
        },
        Command::Forward { .. } | Command::Delete { .. } | Command::Read { .. } | Command::Logout
        | Command::Stop => one_line(owned("✅  Done.")),
        Command::Init | Command::Login | Command::Tui => {
            let v: Vec<OutLine> = Vec::new();
            assert(lines_view(v@) =~= Seq::empty());
            v
        },
    }
}

// ── Checks before printing ─────────────────────────────────────────

/// Every item of a list has a date that can be printed.
pub fn all_dated(items: &Vec<Json>) -> (r: bool)
    ensures
        r == (forall|k: int| 0 <= k < items@.len() ==> #[trigger] dated(items@[k]@)),
{
    let mut i: usize = 0;
    while i < items.len()
        invariant
            i <= items@.len(),
            forall|k: int| 0 <= k < i ==> #[trigger] dated(items@[k]@),
        decreases items.len() - i,
    {
        let d = i64_or_zero(at_ref(Some(&items[i]), "date"));
        if !(0 <= d && d <= MAX_TIMESTAMP) {
            assert(!dated(items@[i as int]@));
            return false;
        }
        i = i + 1;
    }
    true
}

/// Whether the messages a result lists can all be printed.
pub fn messages_printable_exec(result: &Json) -> (r: bool)
    ensures
        r == messages_printable(result@),
{
    match result.as_array() {
        Some(arr) => {
            proof {
                lemma_items_view(arr@, arr@.len());
            }
            let ok = all_dated(arr);
            proof {
                let g = items_view(arr@, arr@.len());
                assert(result@ == JsonView::Array(g));
                if ok {
                    assert forall|k: int| 0 <= k < g.len() implies #[trigger] dated(g[k]) by {
                        assert(g[k] == arr@[k]@);
                    }
                    assert(messages_printable(result@));
                } else {
                    let k = choose|k: int| 0 <= k < arr@.len() && !dated(#[trigger] arr@[k]@);
                    assert(g[k] == arr@[k]@);
                    assert(!dated(g[k]));
                    if messages_printable(result@) {
                        lemma_printable_array(result@, g);
                    }
                }
                assert(ok == messages_printable(result@));
            }
            ok
        },
        None => {
            let ms = match result.get("messages") {
                Some(v) => v.as_array(),
                None => None,
            };
            match ms {
                Some(ms) => {
                    proof {
                        lemma_items_view(ms@, ms@.len());
                    }
                    let ok = all_dated(ms);
                    proof {
                        let g = items_view(ms@, ms@.len());
                        assert(get(result@, "messages"@) == Some(JsonView::Array(g)));
                        if ok {
                            assert forall|k: int| 0 <= k < g.len() implies #[trigger] dated(g[k]) by {
                                assert(g[k] == ms@[k]@);
                            }
                        } else {
                            let k = choose|k: int| 0 <= k < ms@.len() && !dated(#[trigger] ms@[k]@);
                            assert(g[k] == ms@[k]@);
                            assert(!dated(g[k]));
                            if messages_printable(result@) {
                                lemma_printable_messages(result@, g);
                            }
                        }
                        assert(ok == messages_printable(result@));
                    }
                    ok
                },
                None => {
                    assert(messages_printable(result@));
                    true
                },
            }
        },
    }
}

/// Whether `print_result` can print this result for the command.
pub fn result_printable_exec(cmd: &Command, result: &Json) -> (r: bool)
    ensures
        r == result_printable(*cmd, result@),
{
    match cmd {
        Command::History { .. } | Command::Search { .. } => messages_printable_exec(result),
        _ => true,
    }
}


/// `tg history` lists cached rows oldest first (the cache hands them over
/// newest first): for each row, from the last to the first, a line with its
/// date, sender and id, a line with its text, and a blank line.
pub proof fn lemma_history_oldest_first(arr: Seq<JsonView>)
    requires
        arr.len() > 0,
    ensures
        ({
            let lines = messages_lines(JsonView::Array(arr));
            let n = arr.len() as int;
            &&& lines.len() == 3 * n
            &&& forall|k: int|
                0 <= k < n ==> {
                    let m = #[trigger] arr[n - 1 - k];
                    &&& lines[3 * k] == text(
                        "["@ + utc_format(int_or_zero(at(m, "date"@)), "%Y-%m-%d %H:%M"@) + "] "@
                            + match as_i64(at(m, "sender_id"@)) {
                            Some(u) => user_label(u),
                            None => match as_i64(at(at(m, "sender_id"@), "user_id"@)) {
                                Some(u) => user_label(u),
                                None => "system"@,
                            },
                        } + " #"@ + decimal(int_or_zero(at(m, "message_id"@)) as int),
                    )
                    &&& lines[3 * k + 1] == text(
                        "  "@ + match as_str(at(m, "text"@)) {
                            Some(t) => t,
                            None => match as_str(at(at(at(m, "content"@), "text"@), "text"@)) {
                                Some(t) => t,
                                None => "[media]"@,
                            },
                        },
                    )
                    &&& lines[3 * k + 2] == text(""@)
                }
        }),
{
    let n = arr.len() as int;
    let lines = messages_lines(JsonView::Array(arr));
    assert forall|k: int| 0 <= k < n implies {
        let m = #[trigger] arr[n - 1 - k];
        &&& lines[3 * k] == text(row_pair(m).0)
        &&& lines[3 * k + 1] == text(row_pair(m).1)
        &&& lines[3 * k + 2] == text(""@)
    } by {
        assert((3 * k) / 3 == k && (3 * k) % 3 == 0);
        assert((3 * k + 1) / 3 == k && (3 * k + 1) % 3 == 1);
        assert((3 * k + 2) / 3 == k && (3 * k + 2) % 3 == 2);
    }
}

} // verus!
