//! Structured-log records: a level, a target and a message among fields.
use vstd::prelude::*;
use crate::json::{Json, lemma_entry_plain, lemma_member_plain, member, member_str, no_esc, plain, same_text};
use crate::number::{decimal, decimal_text, lemma_decimal_text};
use crate::palette::{Palette, RenderCtx};
use crate::protocols::{JsonProtocol, Record, plain_record};
use crate::text::{around, atom_text, push_text, weight, write_json_atom};

verus! {

/// Recognizes and renders structured-log records.
pub struct Tracing;

/// The member `fields`, where it is an object.
pub open spec fn fields_of(v: Json) -> Option<Seq<(String, Json)>> {
    match member(v, "fields"@) {
        Some(Json::Object(members)) => Some(members@),
        _ => None,
    }
}

/// The message: the string `message` among the fields.
pub open spec fn message_of(v: Json) -> Option<Seq<char>> {
    match member(v, "fields"@) {
        Some(f) => match f {
            Json::Object(_) => member_str(f, "message"@),
            _ => None,
        },
        None => None,
    }
}

/// The score before capping: level and target 35 each, the message 25,
/// and 5 for a timestamp.
pub open spec fn structured_weights(v: Json) -> int {
    weight(member_str(v, "level"@) is Some, 35) + weight(member_str(v, "target"@) is Some, 35)
        + weight(message_of(v) is Some, 25) + weight(member(v, "timestamp"@) is Some, 5)
}

/// The structured-log score of `v`: its weights capped at 100, and 0 for a
/// value that is not an object.
pub open spec fn structured_score(v: Json) -> u32 {
    match v {
        Json::Object(_) => if structured_weights(v) > 100 {
            100
        } else {
            structured_weights(v) as u32
        },
        _ => 0,
    }
}

/// The colour and label of a level: the three known levels in either case
/// are written in capitals, any other level as given, faint.
pub open spec fn level_style(level: Seq<char>, pal: Palette) -> (Seq<char>, Seq<char>) {
    if level == "ERROR"@ || level == "error"@ {
        (pal.error@, "ERROR"@)
    } else if level == "WARN"@ || level == "warn"@ {
        (pal.warn@, "WARN"@)
    } else if level == "INFO"@ || level == "info"@ {
        (pal.info@, "INFO"@)
    } else {
        (pal.faint@, level)
    }
}

/// ` key=value` for one field; nothing for the message.
pub open spec fn field_text(m: (String, Json)) -> Seq<char> {
    if m.0@ == "message"@ {
        Seq::empty()
    } else {
        " "@ + m.0@ + "="@ + atom_text(m.1)
    }
}

/// The fields other than the message, in their order.
pub open spec fn fields_text(members: Seq<(String, Json)>) -> Seq<char>
    decreases members.len(),
{
    if members.len() == 0 {
        Seq::empty()
    } else {
        fields_text(members.drop_last()) + field_text(members.last())
    }
}

/// `(name) ` for a span object with a name.
pub open spec fn span_text(v: Json) -> Seq<char> {
    match member(v, "span"@) {
        Some(s) => match member_str(s, "name"@) {
            Some(name) => "("@ + name + ") "@,
            None => Seq::empty(),
        },
        None => Seq::empty(),
    }
}

/// ` threadId=…` for a thread id that is a string.
pub open spec fn thread_text(v: Json) -> Seq<char> {
    match member_str(v, "threadId"@) {
        Some(t) => " threadId="@ + t,
        None => Seq::empty(),
    }
}

/// ` spans=n` for a non-empty array of `n` spans.
pub open spec fn spans_text(v: Json) -> Seq<char> {
    match member(v, "spans"@) {
        Some(Json::Array(items)) => if items@.len() > 0 {
            " spans="@ + decimal_text(items@.len())
        } else {
            Seq::empty()
        },
        _ => Seq::empty(),
    }
}

/// The line up to the fields: timestamp, level, target, span, separator,
/// message and thread id.
pub open spec fn structured_lead(
    v: Json,
    ctx: RenderCtx,
    level: Seq<char>,
    target: Seq<char>,
    message: Seq<char>,
) -> Seq<char> {
    let (color, label) = level_style(level, ctx.pal);
    let ts = if ctx.show_ts {
        around("["@, member_str(v, "timestamp"@), "] "@)
    } else {
        Seq::empty()
    };
    ts + color + label + ctx.pal.reset@ + " "@ + target + " "@ + span_text(v) + "— "@ + message
        + thread_text(v)
}

/// The structured-log line of `rec`: `None` unless it has a level and a
/// target that are strings and a `fields` object with a string message.
pub open spec fn structured_line(rec: Record, ctx: RenderCtx) -> Option<Seq<char>> {
    let v = rec.value;
    match (member_str(v, "level"@), member_str(v, "target"@), fields_of(v), message_of(v)) {
        (Some(level), Some(target), Some(fields), Some(message)) => Some(
            structured_lead(v, ctx, level, target, message) + fields_text(fields) + spans_text(v)
                + "\n"@,
        ),
        _ => None,
    }
}

/// Writes the fields other than the message; see `fields_text`.
fn write_fields(members: &Vec<(String, Json)>) -> (r: String)
    ensures
        r@ == fields_text(members@),
        plain(Json::Object(*members)) ==> no_esc(r@),
{
    let mut out = String::new();
    let mut i: usize = 0;
    while i < members.len()
        invariant
            i <= members@.len(),
            out@ == fields_text(members@.subrange(0, i as int)),
            plain(Json::Object(*members)) ==> no_esc(out@),
        decreases members.len() - i,
    {
        proof {
            reveal_strlit(" ");
            reveal_strlit("=");
            if plain(Json::Object(*members)) {
                lemma_entry_plain(*members, members@.len() as int, i as int);
            }
        }
        assert(members@.subrange(0, i + 1).drop_last() == members@.subrange(0, i as int));
        if !same_text(members[i].0.as_str(), "message") {
            push_text(&mut out, " ");
            push_text(&mut out, members[i].0.as_str());
            push_text(&mut out, "=");
            push_text(&mut out, write_json_atom(&members[i].1).as_str());
        }
        i += 1;
    }
    assert(members@.subrange(0, members@.len() as int) == members@);
    out
}

/// Writes `(name) ` for a named span; see `span_text`.
fn write_span(v: &Json) -> (r: String)
    ensures
        r@ == span_text(*v),
        plain(*v) ==> no_esc(r@),
{
    proof {
        reveal_strlit("(");
        reveal_strlit(") ");
        if plain(*v) {
            lemma_member_plain(*v, "span"@);
            if let Some(s) = member(*v, "span"@) {
                lemma_member_plain(s, "name"@);
            }
        }
    }
    let mut out = String::new();
    match v.get("span") {
        Some(s) => match s.get_str("name") {
            Some(name) => {
                push_text(&mut out, "(");
                push_text(&mut out, name);
                push_text(&mut out, ") ");
            },
            None => {},
        },
        None => {},
    }
    out
}

/// Writes ` spans=n` for a non-empty array of spans; see `spans_text`.
fn write_spans(v: &Json) -> (r: String)
    ensures
        r@ == spans_text(*v),
        no_esc(r@),
{
    let mut out = String::new();
    match v.get("spans") {
        Some(Json::Array(items)) => {
            if items.len() > 0 {
                proof {
                    reveal_strlit(" spans=");
                    lemma_decimal_text(items@.len());
                }
                push_text(&mut out, " spans=");
                push_text(&mut out, decimal(items.len() as u64).as_str());
            }
        },
        _ => {},
    }
    out
}

/// Writes the line up to the fields; see `structured_lead`.
fn write_lead(v: &Json, ctx: &RenderCtx, level: &str, target: &str, message: &str) -> (r: String)
    ensures
        r@ == structured_lead(*v, *ctx, level@, target@, message@),
        ctx.pal.is_for(false) && plain(*v) && no_esc(level@) && no_esc(target@) && no_esc(message@)
            ==> no_esc(r@),
{
    proof {
        assert(no_esc("ERROR"@)) by {
            reveal_strlit("ERROR");
        }
        assert(no_esc("WARN"@)) by {
            reveal_strlit("WARN");
        }
        assert(no_esc("INFO"@)) by {
            reveal_strlit("INFO");
        }
        assert(no_esc("["@)) by {
            reveal_strlit("[");
        }
        assert(no_esc("] "@)) by {
            reveal_strlit("] ");
        }
        assert(no_esc(" "@)) by {
            reveal_strlit(" ");
        }
        assert(no_esc("— "@)) by {
            reveal_strlit("— ");
        }
        assert(no_esc(" threadId="@)) by {
            reveal_strlit(" threadId=");
        }
        if plain(*v) {
            lemma_member_plain(*v, "timestamp"@);
            lemma_member_plain(*v, "threadId"@);
        }
    }
    let pal = ctx.pal;
    let (color, label) = if same_text(level, "ERROR") || same_text(level, "error") {
        (pal.error, "ERROR")
    } else if same_text(level, "WARN") || same_text(level, "warn") {
        (pal.warn, "WARN")
    } else if same_text(level, "INFO") || same_text(level, "info") {
        (pal.info, "INFO")
    } else {
        (pal.faint, level)
    };
    let mut out = String::new();
    if ctx.show_ts {
        match v.get_str("timestamp") {
            Some(ts) => {
                if ts.unicode_len() > 0 {
                    push_text(&mut out, "[");
                    push_text(&mut out, ts);
                    push_text(&mut out, "] ");
                }
            },
            None => {},
        }
    }
    push_text(&mut out, color);
    push_text(&mut out, label);
    push_text(&mut out, pal.reset);
    push_text(&mut out, " ");
    push_text(&mut out, target);
    push_text(&mut out, " ");
    push_text(&mut out, write_span(v).as_str());
    push_text(&mut out, "— ");
    push_text(&mut out, message);
    match v.get_str("threadId") {
        Some(t) => {
            push_text(&mut out, " threadId=");
            push_text(&mut out, t);
        },
        None => {},
    }
    out
}

impl JsonProtocol for Tracing {
    open spec fn score(&self, v: Json) -> u32 {
        structured_score(v)
    }

    open spec fn line(&self, rec: Record, ctx: RenderCtx) -> Option<Seq<char>> {
        structured_line(rec, ctx)
    }

    fn sniff(&self, v: &Json) -> (r: u32) {
        match v {
            Json::Object(_) => {
                let mut score: u32 = 0;
                if v.get_str("level").is_some() {
                    score += 35;
                }
                if v.get_str("target").is_some() {
                    score += 35;
                }
                match v.get("fields") {
                    Some(f) => match f {
                        Json::Object(_) => {
                            if f.get_str("message").is_some() {
                                score += 25;
                            }
                        },
                        _ => {},
                    },
                    None => {},
                }
                if v.get("timestamp").is_some() {
                    score += 5;
                }
                if score > 100 { 100 } else { score }
            },
            _ => 0,
        }
    }

    fn render(&self, rec: &Record, ctx: &RenderCtx) -> (r: Option<String>) {
        let v = &rec.value;
        let pal = ctx.pal;
        let level = v.get_str("level");
        let target = v.get_str("target");
        let fields = match v.get("fields") {
            Some(Json::Object(members)) => Some(members),
            _ => None,
        };
        let message = match v.get("fields") {
            Some(f) => match f {
                Json::Object(_) => f.get_str("message"),
                _ => None,
            },
            None => None,
        };
        match (level, target, fields, message) {
            (Some(level), Some(target), Some(fields), Some(message)) => {
                proof {
                    if plain(*v) {
                        lemma_member_plain(*v, "level"@);
                        lemma_member_plain(*v, "target"@);
                        lemma_member_plain(*v, "fields"@);
                        lemma_member_plain(Json::Object(*fields), "message"@);
                    }
                }
                let mut out = write_lead(v, ctx, level, target, message);
                push_text(&mut out, write_fields(fields).as_str());
                push_text(&mut out, write_spans(v).as_str());
                proof {
                    assert(no_esc("\n"@)) by {
                        reveal_strlit("\n");
                    }
                }
                push_text(&mut out, "\n");
                Some(out)
            },
            _ => None,
        }
    }
}

} // verus!
