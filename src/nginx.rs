//! Access-log records: an HTTP method, a path and a status code.
use vstd::prelude::*;
use crate::json::{Json, lemma_member_plain, member, member_str, no_esc, plain, str_of};
use crate::number::{as_u64, decimal, decimal_text, lemma_decimal_text, parse_u64, parsed_u64};
use crate::palette::{Palette, RenderCtx};
use crate::protocols::{JsonProtocol, Record, plain_record};
use crate::text::{around, kv_num_text, kv_text, opt_string, push_text, weight, write_around, write_kv_num, write_kv_str};

verus! {

/// Recognizes and renders access-log records.
pub struct Nginx;

/// The score before capping: method and path 40 each, status 20, and 5 for
/// each of protocol, query, host, bytes_sent, req_time and upstream_time.
pub open spec fn access_weights(v: Json) -> int {
    weight(member_str(v, "method"@) is Some, 40)
        + weight(member_str(v, "path"@) is Some, 40)
        + weight(member(v, "status"@) is Some, 20)
        + weight(member(v, "protocol"@) is Some, 5)
        + weight(member(v, "query"@) is Some, 5)
        + weight(member(v, "host"@) is Some, 5)
        + weight(member(v, "bytes_sent"@) is Some, 5)
        + weight(member(v, "req_time"@) is Some, 5)
        + weight(member(v, "upstream_time"@) is Some, 5)
}

/// The access-log score of `v`: its weights capped at 100, and 0 for a
/// value that is not an object.
pub open spec fn access_score(v: Json) -> u32 {
    match v {
        Json::Object(_) => if access_weights(v) > 100 { 100 } else { access_weights(v) as u32 },
        _ => 0,
    }
}

/// The status code: a number, or a string that reads as one.
pub open spec fn status_of(v: Json) -> Option<u64> {
    match member(v, "status"@) {
        Some(x) => match as_u64(x) {
            Some(n) => Some(n),
            None => match str_of(x) {
                Some(s) => parsed_u64(s),
                None => None,
            },
        },
        None => None,
    }
}

/// The label and colour of a status code.
pub open spec fn status_level(status: u64, pal: Palette) -> (Seq<char>, Seq<char>) {
    if 100 <= status && status <= 299 {
        ("INFO"@, pal.info@)
    } else if 300 <= status && status <= 399 {
        ("INFO"@, pal.status3xx@)
    } else if 400 <= status && status <= 499 {
        ("WARN"@, pal.warn@)
    } else if 500 <= status && status <= 599 {
        ("ERROR"@, pal.error@)
    } else {
        ("INFO"@, pal.info@)
    }
}

/// `[ts] `, where timestamps are shown and the record has one.
pub open spec fn access_ts(v: Json, ctx: RenderCtx) -> Seq<char> {
    if ctx.show_ts {
        match member_str(v, "ts"@) {
            Some(ts) => "["@ + ts + "] "@,
            None => Seq::empty(),
        }
    } else {
        Seq::empty()
    }
}

/// Everything up to and including the separator: timestamp, level, status,
/// method, host, path, query and protocol.
pub open spec fn access_head(
    v: Json,
    ctx: RenderCtx,
    method: Seq<char>,
    path: Seq<char>,
    status: u64,
) -> Seq<char> {
    let pal = ctx.pal;
    let (label, color) = status_level(status, pal);
    access_ts(v, ctx) + color + label + pal.reset@ + " "@ + decimal_text(status as nat) + " "@
        + pal.faint@ + method + pal.reset@ + " "@ + around(Seq::empty(), member_str(v, "host"@), " "@)
        + path + around("?"@, member_str(v, "query"@), Seq::empty()) + around(
        " "@ + pal.faint@,
        member_str(v, "protocol"@),
        pal.reset@,
    ) + " —"@
}

/// The size sent, as decimal text, where it is an unsigned number.
pub open spec fn bytes_text(v: Json) -> Option<Seq<char>> {
    match member(v, "bytes_sent"@) {
        Some(x) => match as_u64(x) {
            Some(n) => Some(decimal_text(n as nat)),
            None => None,
        },
        None => None,
    }
}

/// The `key=value` pairs after the separator, in their fixed order.
pub open spec fn access_pairs(rec: Record) -> Seq<char> {
    let v = rec.value;
    kv_text("bytes"@, bytes_text(v)) + kv_num_text("rt"@, opt_string(rec.req_time))
        + kv_num_text("up"@, opt_string(rec.upstream_time)) + kv_text(
        "up_addr"@,
        member_str(v, "upstream_addr"@),
    ) + kv_text("req"@, member_str(v, "req_id"@)) + kv_text("trace"@, member_str(v, "traceparent"@))
        + kv_text("xff"@, member_str(v, "xff"@)) + kv_text("client"@, member_str(v, "remote_addr"@))
        + kv_text("referer"@, member_str(v, "referer"@)) + kv_text(
        "ua"@,
        member_str(v, "user_agent"@),
    ) + kv_text("cache"@, member_str(v, "cache"@))
}

/// The access-log line of `rec`: `None` unless it has a method and a path
/// that are strings and a status code.
pub open spec fn access_line(rec: Record, ctx: RenderCtx) -> Option<Seq<char>> {
    let v = rec.value;
    match (member_str(v, "method"@), member_str(v, "path"@), status_of(v)) {
        (Some(method), Some(path), Some(status)) => Some(
            access_head(v, ctx, method, path, status) + access_pairs(rec) + "\n"@,
        ),
        _ => None,
    }
}

/// Reads the status code: a number, or a string that reads as one.
fn read_status(v: &Json) -> (r: Option<u64>)
    ensures
        r == status_of(*v),
{
    match v.get("status") {
        Some(x) => match x.as_u64() {
            Some(n) => Some(n),
            None => match x.as_str() {
                Some(s) => parse_u64(s),
                None => None,
            },
        },
        None => None,
    }
}

/// `w` for a present member, else zero.
fn count_member(v: &Json, k: &str, w: u32) -> (r: u32)
    ensures
        r == weight(member(*v, k@) is Some, w as int),
{
    if v.get(k).is_some() { w } else { 0 }
}

/// Writes the head of the line; see `access_head`.
fn write_head(v: &Json, ctx: &RenderCtx, method: &str, path: &str, status: u64) -> (r: String)
    ensures
        r@ == access_head(*v, *ctx, method@, path@, status),
        ctx.pal.is_for(false) && plain(*v) && no_esc(method@) && no_esc(path@) ==> no_esc(r@),
{
    proof {
        reveal_strlit("");
        reveal_strlit("[");
        reveal_strlit("] ");
        reveal_strlit(" ");
        reveal_strlit("?");
        reveal_strlit(" —");
        reveal_strlit("INFO");
        reveal_strlit("WARN");
        reveal_strlit("ERROR");
        lemma_decimal_text(status as nat);
        if plain(*v) {
            lemma_member_plain(*v, "ts"@);
            lemma_member_plain(*v, "host"@);
            lemma_member_plain(*v, "query"@);
            lemma_member_plain(*v, "protocol"@);
        }
    }
    let pal = ctx.pal;
    let mut out = String::new();
    if ctx.show_ts {
        match v.get_str("ts") {
            Some(ts) => {
                out.append("[");
                out.append(ts);
                out.append("] ");
            },
            None => {},
        }
    }
    let (label, color) = if 100 <= status && status <= 299 {
        ("INFO", pal.info)
    } else if 300 <= status && status <= 399 {
        ("INFO", pal.status3xx)
    } else if 400 <= status && status <= 499 {
        ("WARN", pal.warn)
    } else if 500 <= status && status <= 599 {
        ("ERROR", pal.error)
    } else {
        ("INFO", pal.info)
    };
    out.append(color);
    out.append(label);
    out.append(pal.reset);
    out.append(" ");
    let code = decimal(status);
    out.append(code.as_str());
    out.append(" ");
    out.append(pal.faint);
    out.append(method);
    out.append(pal.reset);
    out.append(" ");
    let host = write_around("", v.get_str("host"), " ");
    out.append(host.as_str());
    out.append(path);
    let query = write_around("?", v.get_str("query"), "");
    out.append(query.as_str());
    let mut pre = String::from_str(" ");
    pre.append(pal.faint);
    let protocol = write_around(pre.as_str(), v.get_str("protocol"), pal.reset);
    out.append(protocol.as_str());
    out.append(" —");
    out
}

/// Writes the `key=value` pairs; see `access_pairs`.
fn write_pairs(rec: &Record) -> (r: String)
    ensures
        r@ == access_pairs(*rec),
        plain_record(*rec) ==> no_esc(r@),
{
    proof {
        assert(no_esc("bytes"@)) by {
            reveal_strlit("bytes");
        }
        assert(no_esc("rt"@)) by {
            reveal_strlit("rt");
        }
        assert(no_esc("up"@)) by {
            reveal_strlit("up");
        }
        assert(no_esc("up_addr"@)) by {
            reveal_strlit("up_addr");
        }
        assert(no_esc("req"@)) by {
            reveal_strlit("req");
        }
        assert(no_esc("trace"@)) by {
            reveal_strlit("trace");
        }
        assert(no_esc("xff"@)) by {
            reveal_strlit("xff");
        }
        assert(no_esc("client"@)) by {
            reveal_strlit("client");
        }
        assert(no_esc("referer"@)) by {
            reveal_strlit("referer");
        }
        assert(no_esc("ua"@)) by {
            reveal_strlit("ua");
        }
        assert(no_esc("cache"@)) by {
            reveal_strlit("cache");
        }
    }
    let v = &rec.value;
    let mut out = String::new();
    let bytes = match v.get("bytes_sent") {
        Some(x) => match x.as_u64() {
            Some(n) => Some(decimal(n)),
            None => None,
        },
        None => None,
    };
    let bytes_str: Option<&str> = match &bytes {
        Some(b) => Some(b.as_str()),
        None => None,
    };
    push_text(&mut out, write_kv_str("bytes", bytes_str).as_str());
    let rt: Option<&str> = match &rec.req_time {
        Some(t) => Some(t.as_str()),
        None => None,
    };
    push_text(&mut out, write_kv_num("rt", rt).as_str());
    let up: Option<&str> = match &rec.upstream_time {
        Some(t) => Some(t.as_str()),
        None => None,
    };
    push_text(&mut out, write_kv_num("up", up).as_str());
    push_text(&mut out, write_kv_str("up_addr", v.get_str("upstream_addr")).as_str());
    push_text(&mut out, write_kv_str("req", v.get_str("req_id")).as_str());
    push_text(&mut out, write_kv_str("trace", v.get_str("traceparent")).as_str());
    push_text(&mut out, write_kv_str("xff", v.get_str("xff")).as_str());
    push_text(&mut out, write_kv_str("client", v.get_str("remote_addr")).as_str());
    push_text(&mut out, write_kv_str("referer", v.get_str("referer")).as_str());
    push_text(&mut out, write_kv_str("ua", v.get_str("user_agent")).as_str());
    push_text(&mut out, write_kv_str("cache", v.get_str("cache")).as_str());
    out
}

impl JsonProtocol for Nginx {
    open spec fn score(&self, v: Json) -> u32 {
        access_score(v)
    }

    open spec fn line(&self, rec: Record, ctx: RenderCtx) -> Option<Seq<char>> {
        access_line(rec, ctx)
    }

    fn sniff(&self, v: &Json) -> (r: u32) {
        match v {
            Json::Object(_) => {
                let mut score: u32 = 0;
                if v.get_str("method").is_some() {
                    score += 40;
                }
                if v.get_str("path").is_some() {
                    score += 40;
                }
                score += count_member(v, "status", 20);
                score += count_member(v, "protocol", 5);
                score += count_member(v, "query", 5);
                score += count_member(v, "host", 5);
                score += count_member(v, "bytes_sent", 5);
                score += count_member(v, "req_time", 5);
                score += count_member(v, "upstream_time", 5);
                if score > 100 { 100 } else { score }
            },
            _ => 0,
        }
    }

    fn render(&self, rec: &Record, ctx: &RenderCtx) -> (r: Option<String>) {
        let v = &rec.value;
        let method = v.get_str("method");
        let path = v.get_str("path");
        let status = read_status(v);
        match (method, path, status) {
            (Some(m), Some(p), Some(s)) => {
                proof {
                    reveal_strlit("\n");
                    if plain(*v) {
                        lemma_member_plain(*v, "method"@);
                        lemma_member_plain(*v, "path"@);
                    }
                }
                let mut out = write_head(v, ctx, m, p, s);
                push_text(&mut out, write_pairs(rec).as_str());
                push_text(&mut out, "\n");
                Some(out)
            },
            _ => None,
        }
    }
}

} // verus!
