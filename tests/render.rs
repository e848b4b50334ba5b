use logsniff::dispatch::{dispatch, protocols, select};
use logsniff::json::{compact, Json};
use logsniff::lines::{to_io_err, trim_line_end};
use logsniff::nginx::Nginx;
use logsniff::palette::{ColorChoice, Palette, RenderCtx};
use logsniff::protocols::{JsonProtocol, Record};
use logsniff::text::{show, trim_decimal, write_json_atom, write_kv_num, write_kv_str};
use logsniff::tracing::Tracing;
use serde_json::Value;

fn json_of(v: &Value) -> Json {
    match v {
        Value::Null => Json::Null,
        Value::Bool(b) => Json::Bool(*b),
        Value::Number(n) => Json::Number(n.to_string()),
        Value::String(s) => Json::Str(s.clone()),
        Value::Array(items) => Json::Array(items.iter().map(json_of).collect()),
        Value::Object(members) => {
            Json::Object(members.iter().map(|(k, x)| (k.clone(), json_of(x))).collect())
        }
    }
}

fn parse(text: &str) -> Json {
    json_of(&serde_json::from_str::<Value>(text).unwrap())
}

fn record(text: &str) -> Record {
    Record { value: parse(text), req_time: None, upstream_time: None }
}

fn ctx(colors: bool, show_ts: bool) -> RenderCtx {
    RenderCtx { show_ts, pal: Palette::new(colors) }
}

#[test]
fn minimal_access_record_is_access_log() {
    let rec = record(r#"{"method":"GET","path":"/a","status":200}"#);
    assert!(Nginx.sniff(&rec.value) >= 80);
    assert!(Nginx.sniff(&rec.value) > Tracing.sniff(&rec.value));
    let line = dispatch(&rec, &ctx(false, false)).unwrap();
    assert_eq!(line, "INFO 200 GET /a —\n");
}

#[test]
fn minimal_access_record_with_colors() {
    let rec = record(r#"{"method":"GET","path":"/a","status":200}"#);
    let line = dispatch(&rec, &ctx(true, false)).unwrap();
    assert_eq!(line, "\x1b[32mINFO\x1b[0m 200 \x1b[2mGET\x1b[0m /a —\n");
}

#[test]
fn structured_record_colors_forced_on() {
    let rec = record(r#"{"level":"ERROR","target":"svc","fields":{"message":"boom"}}"#);
    assert!(Tracing.sniff(&rec.value) > Nginx.sniff(&rec.value));
    let line = dispatch(&rec, &ctx(true, false)).unwrap();
    assert!(line.contains("svc"));
    assert!(line.contains("boom"));
    assert!(line.starts_with("\x1b[31mERROR\x1b[0m"));
    assert_eq!(line, "\x1b[31mERROR\x1b[0m svc — boom\n");
}

#[test]
fn structured_record_colors_forced_off() {
    let rec = record(r#"{"level":"ERROR","target":"svc","fields":{"message":"boom"}}"#);
    let line = dispatch(&rec, &ctx(false, false)).unwrap();
    assert!(!line.contains('\x1b'));
    assert_eq!(line, "ERROR svc — boom\n");
}

#[test]
fn structured_record_full() {
    let rec = record(
        r#"{"timestamp":"2024-01-01T00:00:00Z","level":"warn","target":"app::db","threadId":"ThreadId(3)",
            "span":{"name":"query"},"spans":[{"name":"a"},{"name":"b"}],
            "fields":{"message":"slow query","elapsed_ms":1500,"sql":"SELECT 1","ok":true,"tags":["a","b"]}}"#,
    );
    let line = dispatch(&rec, &ctx(false, true)).unwrap();
    assert_eq!(
        line,
        "[2024-01-01T00:00:00Z] WARN app::db (query) — slow query threadId=ThreadId(3) \
         elapsed_ms=1500 ok=true sql=\"SELECT 1\" tags=[\"a\",\"b\"] spans=2\n"
    );
}

#[test]
fn structured_unknown_level_is_kept_and_faint() {
    let rec = record(r#"{"level":"TRACE","target":"t","fields":{"message":"m"}}"#);
    assert_eq!(dispatch(&rec, &ctx(true, false)).unwrap(), "\x1b[2mTRACE\x1b[0m t — m\n");
    let rec = record(r#"{"level":"info","target":"t","fields":{"message":"m"}}"#);
    assert_eq!(dispatch(&rec, &ctx(false, false)).unwrap(), "INFO t — m\n");
}

#[test]
fn structured_timestamp_hidden_unless_asked() {
    let rec = record(r#"{"timestamp":"T","level":"INFO","target":"t","fields":{"message":"m"}}"#);
    assert_eq!(dispatch(&rec, &ctx(false, false)).unwrap(), "INFO t — m\n");
    assert_eq!(dispatch(&rec, &ctx(false, true)).unwrap(), "[T] INFO t — m\n");
}

#[test]
fn access_record_full() {
    let mut rec = record(
        r#"{"ts":"2024-05-01T12:00:00Z","method":"POST","path":"/api","query":"x=1","protocol":"HTTP/1.1",
            "host":"example.com","status":"503","bytes_sent":1234,"req_time":0.0530000,"upstream_time":"0.05",
            "upstream_addr":"10.0.0.1:8080","req_id":"abc","traceparent":"00-1-2-01","xff":"1.2.3.4, 5.6.7.8",
            "remote_addr":"10.0.0.1","referer":"","user_agent":"curl/8.0","cache":"HIT"}"#,
    );
    rec.req_time = Some(format!("{:.6}", 0.0530000f64));
    rec.upstream_time = Some(format!("{:.6}", "0.05".parse::<f64>().unwrap()));
    let line = dispatch(&rec, &ctx(false, true)).unwrap();
    assert_eq!(
        line,
        "[2024-05-01T12:00:00Z] ERROR 503 POST example.com /api?x=1 HTTP/1.1 — bytes=1234 rt=0.053 up=0.05 \
         up_addr=10.0.0.1:8080 req=abc trace=00-1-2-01 xff=\"1.2.3.4, 5.6.7.8\" client=10.0.0.1 ua=curl/8.0 cache=HIT\n"
    );
}

#[test]
fn access_status_levels_and_colors() {
    let c = ctx(true, false);
    let cases = [
        (100, "\x1b[32mINFO"),
        (299, "\x1b[32mINFO"),
        (302, "\x1b[36mINFO"),
        (404, "\x1b[33mWARN"),
        (500, "\x1b[31mERROR"),
        (599, "\x1b[31mERROR"),
        (600, "\x1b[32mINFO"),
        (0, "\x1b[32mINFO"),
    ];
    for (status, start) in cases {
        let rec = record(&format!(r#"{{"method":"GET","path":"/","status":{}}}"#, status));
        let line = dispatch(&rec, &c).unwrap();
        assert!(line.starts_with(start), "{}: {:?}", status, line);
        assert!(line.contains(&format!(" {} ", status)));
    }
}

#[test]
fn access_status_as_string_and_rejections() {
    let rec = record(r#"{"method":"GET","path":"/","status":"+404"}"#);
    assert_eq!(dispatch(&rec, &ctx(false, false)).unwrap(), "WARN 404 GET / —\n");
    // A status that is neither an unsigned number nor such a string: declined.
    for status in [r#""abc""#, "-1", "2.5", r#""""#, "null"] {
        let rec = record(&format!(r#"{{"method":"GET","path":"/","status":{}}}"#, status));
        assert!(Nginx.sniff(&rec.value) > 0);
        assert!(Nginx.render(&rec, &ctx(false, false)).is_none());
        assert!(dispatch(&rec, &ctx(false, false)).is_none());
    }
}

#[test]
fn access_scores() {
    assert_eq!(Nginx.sniff(&parse(r#"{"method":"GET","path":"/a","status":200}"#)), 100);
    assert_eq!(Nginx.sniff(&parse(r#"{"method":"GET","path":"/a"}"#)), 80);
    assert_eq!(Nginx.sniff(&parse(r#"{"method":1,"status":null,"host":"h"}"#)), 25);
    assert_eq!(
        Nginx.sniff(&parse(
            r#"{"method":"GET","path":"/a","status":1,"protocol":1,"query":1,"host":1,"bytes_sent":1,"req_time":1,"upstream_time":1}"#
        )),
        100
    );
    assert_eq!(Nginx.sniff(&parse("[1,2]")), 0);
}

#[test]
fn structured_scores() {
    assert_eq!(Tracing.sniff(&parse(r#"{"level":"a","target":"b","fields":{"message":"m"},"timestamp":1}"#)), 100);
    assert_eq!(Tracing.sniff(&parse(r#"{"level":"a","target":"b","fields":{"message":"m"}}"#)), 95);
    assert_eq!(Tracing.sniff(&parse(r#"{"level":"a","fields":{"msg":"m"}}"#)), 35);
    assert_eq!(Tracing.sniff(&parse(r#""text""#)), 0);
}

#[test]
fn unrecognized_records_go_to_the_reformatter() {
    for text in [r#"{"hello":"world"}"#, "[1,2,3]", "42", "null", r#""s""#, "{}"] {
        assert!(dispatch(&record(text), &ctx(false, false)).is_none());
    }
    // The winner declines: no fallback to the other recognizer.
    let rec = record(r#"{"level":"INFO","target":"t","fields":{"msg":"no message"}}"#);
    assert!(Tracing.sniff(&rec.value) > 0);
    assert!(dispatch(&rec, &ctx(false, false)).is_none());
}

#[test]
fn tie_goes_to_first_registered() {
    // Both recognizers score 100; the access log was registered first.
    let rec = record(
        r#"{"method":"GET","path":"/t","status":201,"level":"INFO","target":"t","fields":{"message":"m"},"timestamp":"T"}"#,
    );
    assert_eq!(Nginx.sniff(&rec.value), Tracing.sniff(&rec.value));
    for _ in 0..3 {
        assert_eq!(dispatch(&rec, &ctx(false, false)).unwrap(), "INFO 201 GET /t —\n");
    }
    // 40 each: the access log wins and declines.
    let rec = record(r#"{"method":"GET","level":"INFO","timestamp":"T"}"#);
    assert_eq!(Nginx.sniff(&rec.value), 40);
    assert_eq!(Tracing.sniff(&rec.value), 40);
    assert!(dispatch(&rec, &ctx(false, false)).is_none());
}

#[test]
fn select_picks_first_highest() {
    assert_eq!(select(&vec![40, 40]), Some(0));
    assert_eq!(select(&vec![10, 90, 90]), Some(1));
    assert_eq!(select(&vec![0, 0]), None);
    assert_eq!(select(&vec![]), None);
    assert_eq!(select(&vec![0, 5]), Some(1));
    assert_eq!(protocols().len(), 2);
}

#[test]
fn numbers_are_trimmed() {
    assert_eq!(trim_decimal(&format!("{:.6}", 0.0530000f64)), "0.053");
    assert_eq!(trim_decimal(&format!("{:.6}", -0.0f64)), "0");
    assert_eq!(trim_decimal(&format!("{:.6}", 2.0f64)), "2");
    assert_eq!(trim_decimal(&format!("{:.6}", 10.0f64)), "10");
    assert_eq!(trim_decimal(&format!("{:.6}", 1.25f64)), "1.25");
    assert_eq!(trim_decimal(&format!("{:.6}", -3.5f64)), "-3.5");
    assert_eq!(write_kv_num("rt", Some("0.500000")), " rt=0.5");
    assert_eq!(write_kv_num("rt", None), "");
}

#[test]
fn bare_and_quoted_values() {
    assert_eq!(show("10.0.0.1"), "10.0.0.1");
    assert_eq!(show("has space"), "\"has space\"");
    assert_eq!(show("a=b"), "\"a=b\"");
    assert_eq!(show("tab\there"), "\"tab\\there\"");
    assert_eq!(show("é"), "\"é\"");
    assert_eq!(show(""), "");
    assert_eq!(write_kv_str("k", Some("v")), " k=v");
    assert_eq!(write_kv_str("k", Some("")), "");
    assert_eq!(write_kv_str("k", None), "");
}

#[test]
fn atoms_are_compact_json() {
    assert_eq!(write_json_atom(&parse(r#""plain""#)), "plain");
    assert_eq!(write_json_atom(&parse(r#""two words""#)), "\"two words\"");
    assert_eq!(write_json_atom(&parse("1.5")), "1.5");
    assert_eq!(write_json_atom(&parse("null")), "null");
    assert_eq!(write_json_atom(&parse("false")), "false");
    assert_eq!(write_json_atom(&parse(r#"{"a":[1,{"b":"c d"}],"e":{}}"#)), r#"{"a":[1,{"b":"c d"}],"e":{}}"#);
}

#[test]
fn compact_output_parses_back() {
    for text in [
        r#"{"hello":"wor\"ld","n":[1,-2,3.5,1e300,null,true],"o":{"x":{}},"u":"\u001bé"}"#,
        "[]",
        r#""\\ \n""#,
        "-0",
        "18446744073709551615",
    ] {
        let decoded: Value = serde_json::from_str(text).unwrap();
        let written = compact(&json_of(&decoded));
        assert_eq!(written, serde_json::to_string(&decoded).unwrap());
        let back: Value = serde_json::from_str(&written).unwrap();
        assert_eq!(back, decoded);
    }
}

#[test]
fn colors_never_emit_no_escape() {
    let c = ctx(false, true);
    for text in [
        r#"{"method":"GET","path":"/a","status":404,"query":"q","protocol":"HTTP/2","host":"h","xff":"a b"}"#,
        r#"{"level":"WARN","target":"svc","fields":{"message":"boom","k":"\u001b[31m"},"spans":[1]}"#,
        r#"{"level":"other","target":"svc","fields":{"message":"m"},"span":{"name":"s"}}"#,
    ] {
        let line = dispatch(&record(text), &c).unwrap();
        assert!(!line.contains('\x1b'), "{:?}", line);
    }
    let p = Palette::new(false);
    for s in [p.info, p.warn, p.error, p.status3xx, p.faint, p.reset] {
        assert_eq!(s, "");
    }
}

#[test]
fn blank_lines_hold_no_record() {
    let mut b = b"{\"a\":1}\r\n".to_vec();
    assert!(trim_line_end(&mut b));
    assert_eq!(b, b"{\"a\":1}".to_vec());
    let mut b = b"\r\n\n".to_vec();
    assert!(!trim_line_end(&mut b));
    assert!(b.is_empty());
    let mut b = b"x\ry".to_vec();
    assert!(trim_line_end(&mut b));
    assert_eq!(b, b"x\ry".to_vec());
}

#[test]
fn one_output_per_parsed_line() {
    let input = "{\"method\":\"GET\",\"path\":\"/\",\"status\":200}\n\nnot json\n{\"x\":1}\r\n  \n{\"level\":\"INFO\",\"target\":\"t\",\"fields\":{\"message\":\"m\"}}\n";
    let mut outputs = 0;
    let mut valid = 0;
    for raw in input.split_inclusive('\n') {
        let mut buf = raw.as_bytes().to_vec();
        if !trim_line_end(&mut buf) {
            continue;
        }
        if let Ok(v) = serde_json::from_slice::<Value>(&buf) {
            valid += 1;
            let rec = Record { value: json_of(&v), req_time: None, upstream_time: None };
            // A rendered line, or the reformatter's: one output either way.
            let _ = dispatch(&rec, &ctx(false, false));
            outputs += 1;
        }
    }
    assert_eq!(valid, 3);
    assert_eq!(outputs, 3);
}

#[test]
fn color_mode_decides_palette() {
    for tty in [false, true] {
        let never = RenderCtx::new(false, ColorChoice::Never, tty);
        assert!(!never.pal.enabled);
        assert_eq!(never.pal.error, "");
        let always = RenderCtx::new(true, ColorChoice::Always, tty);
        assert!(always.pal.enabled);
        assert!(always.show_ts);
        assert_eq!(always.pal.error, "\x1b[31m");
        let auto = RenderCtx::new(false, ColorChoice::Auto, tty);
        assert_eq!(auto.pal.enabled, tty);
        let rec = record(r#"{"level":"ERROR","target":"svc","fields":{"message":"boom"}}"#);
        assert!(!dispatch(&rec, &never).unwrap().contains('\x1b'));
    }
}

#[test]
fn writer_errors_become_io_errors() {
    let e = serde_json::from_str::<Value>("{").unwrap_err();
    let io = to_io_err(e);
    assert_eq!(io.kind(), std::io::ErrorKind::Other);
    assert!(io.to_string().contains("EOF"));
}
