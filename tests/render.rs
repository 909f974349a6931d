use femme::clean::{self, KeyValues};
use femme::ndjson::{self, get_level, json_object};
use femme::pretty::{self, format_kv_pairs, format_line, format_message};
use femme::record::{Level, Record};
use femme::sink::{emit, Renderer};
use femme::text::decimal_text;

fn record(level: Level, message: &str, pairs: &[(&str, &str)]) -> Record {
    let mut r = Record::new(level, message.to_string());
    for (k, v) in pairs {
        r.key_values.push((k.to_string(), v.to_string()));
    }
    r
}

fn located(mut r: Record, file: &str, line: u32) -> Record {
    r.file = Some(file.to_string());
    r.line = Some(line);
    r
}

#[test]
fn plain_message_with_attributes() {
    let r = record(Level::Info, "hello", &[("a", "1"), ("b", "2")]);
    assert_eq!(clean::render(&r), "hello ,a=1 ,b=2\n");
}

#[test]
fn plain_message_without_attributes() {
    let r = record(Level::Error, "hello", &[]);
    assert_eq!(KeyValues::fmt(&r), "");
    assert_eq!(clean::render(&r), "hello\n");
}

#[test]
fn plain_attributes_keep_delivered_order() {
    let r = record(Level::Warn, "m", &[("z", "26"), ("a", "1")]);
    assert_eq!(KeyValues::fmt(&r), " ,z=26 ,a=1");
}

#[test]
fn visitor_gathers_pairs() {
    let r = record(Level::Debug, "m", &[("k", "")]);
    assert_eq!(KeyValues::fmt(&r), " ,k=");
}

#[test]
fn pretty_info_message_only_colored() {
    let r = record(Level::Info, "started", &[]);
    assert_eq!(
        pretty::render(&r, true),
        "\x1b[32m●  \x1b[4mstarted\x1b[0m\x1b[0m\n"
    );
}

#[test]
fn pretty_info_message_only_plain() {
    let r = record(Level::Info, "started", &[]);
    assert_eq!(pretty::render(&r, false), "●  started\n");
}

#[test]
fn pretty_glyphs_and_colors() {
    let cases = [
        (Level::Trace, "\x1b[32m◯  \x1b[4mm\x1b[0m\x1b[0m\n"),
        (Level::Debug, "\x1b[32m◎  \x1b[4mm\x1b[0m\x1b[0m\n"),
        (Level::Info, "\x1b[32m●  \x1b[4mm\x1b[0m\x1b[0m\n"),
        (Level::Warn, "\x1b[33m⌿  \x1b[4mm\x1b[0m\x1b[0m\n"),
        (Level::Error, "\x1b[31m✖  \x1b[4mm\x1b[0m\x1b[0m\n"),
    ];
    for (level, expected) in cases {
        assert_eq!(format_message(&record(level, "m", &[]), true), expected);
    }
}

#[test]
fn pretty_location_is_second_line() {
    let bare = located(record(Level::Warn, "x", &[]), "main", 10);
    let with_pairs = located(record(Level::Warn, "x", &[("a", "1")]), "main", 10);
    for r in [bare, with_pairs] {
        for colors in [false, true] {
            let out = pretty::render(&r, colors);
            let second: Vec<&str> = out.split_inclusive('\n').collect();
            assert_eq!(second[1], "   main:10\n");
        }
    }
}

#[test]
fn pretty_location_needs_file_and_line() {
    let mut r = record(Level::Info, "x", &[]);
    r.file = Some("main".to_string());
    assert_eq!(format_line(&r), "");
    r.file = None;
    r.line = Some(3);
    assert_eq!(format_line(&r), "");
    let r = located(record(Level::Info, "x", &[]), "src/lib.rs", 4294967295);
    assert_eq!(format_line(&r), "   src/lib.rs:4294967295\n");
}

#[test]
fn pretty_attribute_lines() {
    let r = record(Level::Info, "x", &[("a", "1"), ("b", "two")]);
    assert_eq!(format_kv_pairs(&r, false), "   › a: 1\n   › b: two\n");
    assert_eq!(
        format_kv_pairs(&r, true),
        "   › \x1b[35ma\x1b[0m: 1\n   › \x1b[35mb\x1b[0m: two\n"
    );
}

#[test]
fn pretty_full_block() {
    let r = located(record(Level::Error, "boom", &[("code", "7")]), "main", 10);
    assert_eq!(
        pretty::render(&r, false),
        "✖  boom\n   main:10\n   › code: 7\n"
    );
}

#[test]
fn level_codes() {
    assert_eq!(get_level(Level::Trace), 10);
    assert_eq!(get_level(Level::Debug), 20);
    assert_eq!(get_level(Level::Info), 30);
    assert_eq!(get_level(Level::Warn), 40);
    assert_eq!(get_level(Level::Error), 50);
}

#[test]
fn ndjson_without_attributes() {
    let r = record(Level::Info, "hi", &[]);
    let out = ndjson::render(&r, 1234);
    assert_eq!(out, "{\"level\":30,\"time\":1234,\"msg\":\"hi\"}\n");
    let v: serde_json::Value = serde_json::from_str(&out).unwrap();
    assert_eq!(v.as_object().unwrap().len(), 3);
}

#[test]
fn ndjson_with_attributes_flattened() {
    let r = record(Level::Warn, "hi", &[("a", "1"), ("b", "x y")]);
    let out = ndjson::render(&r, 0);
    assert_eq!(
        out,
        "{\"level\":40,\"time\":0,\"msg\":\"hi\",\"a\":\"1\",\"b\":\"x y\"}\n"
    );
    let v: serde_json::Value = serde_json::from_str(&out).unwrap();
    let obj = v.as_object().unwrap();
    assert_eq!(obj.len(), 5);
    assert_eq!(obj["level"], serde_json::Value::from(40));
    assert_eq!(obj["a"], serde_json::Value::from("1"));
    assert_eq!(obj["b"], serde_json::Value::from("x y"));
}

#[test]
fn ndjson_escapes_text() {
    let r = record(Level::Error, "say \"hi\"\nnow", &[("pa\\th", "t\tab")]);
    let out = ndjson::render(&r, 99);
    assert_eq!(
        out,
        "{\"level\":50,\"time\":99,\"msg\":\"say \\\"hi\\\"\\nnow\",\"pa\\\\th\":\"t\\tab\"}\n"
    );
    assert_eq!(out.matches('\n').count(), 1);
    let v: serde_json::Value = serde_json::from_str(&out).unwrap();
    assert_eq!(v["msg"], serde_json::Value::from("say \"hi\"\nnow"));
}

#[test]
fn ndjson_every_level_parses() {
    for (level, code) in [
        (Level::Trace, 10),
        (Level::Debug, 20),
        (Level::Info, 30),
        (Level::Warn, 40),
        (Level::Error, 50),
    ] {
        let out = ndjson::render(&record(level, "m", &[("k", "v")]), 1_700_000_000_000);
        let v: serde_json::Value = serde_json::from_str(&out).unwrap();
        assert_eq!(v["level"], serde_json::Value::from(code));
        assert_eq!(v["time"], serde_json::Value::from(1_700_000_000_000u64));
        assert_eq!(v.as_object().unwrap().len(), 4);
    }
}

#[test]
fn json_object_from_members() {
    let empty: Vec<(String, String)> = Vec::new();
    assert_eq!(json_object(&empty), "{}");
    let ms = vec![
        ("\"a\"".to_string(), "1".to_string()),
        ("\"b\"".to_string(), "\"c\"".to_string()),
    ];
    assert_eq!(json_object(&ms), "{\"a\":1,\"b\":\"c\"}");
}

#[test]
fn ndjson_attribute_members_are_quoted() {
    let r = record(Level::Info, "m", &[("k", "v")]);
    let ms = ndjson::format_kv_pairs(&r);
    assert_eq!(ms, vec![("\"k\"".to_string(), "\"v\"".to_string())]);
}

#[test]
fn decimal_text_values() {
    assert_eq!(decimal_text(0), "0");
    assert_eq!(decimal_text(7), "7");
    assert_eq!(decimal_text(10), "10");
    assert_eq!(decimal_text(1234567890123), "1234567890123");
    assert_eq!(decimal_text(u128::MAX), u128::MAX.to_string());
}

#[test]
fn filtered_record_gives_no_output() {
    let r = record(Level::Trace, "quiet", &[("a", "1")]);
    for renderer in [Renderer::Plain, Renderer::Pretty, Renderer::Structured] {
        assert_eq!(emit(renderer, false, &r, true, 5), None);
    }
}

#[test]
fn admitted_record_gives_one_unit() {
    let r = record(Level::Error, "loud", &[("a", "1")]);
    assert_eq!(
        emit(Renderer::Plain, true, &r, true, 5),
        Some("loud ,a=1\n".to_string())
    );
    assert_eq!(
        emit(Renderer::Pretty, true, &r, false, 5),
        Some("✖  loud\n   › a: 1\n".to_string())
    );
    assert_eq!(
        emit(Renderer::Structured, true, &r, false, 5),
        Some("{\"level\":50,\"time\":5,\"msg\":\"loud\",\"a\":\"1\"}\n".to_string())
    );
}

#[test]
fn rendering_twice_is_identical() {
    let r = located(record(Level::Debug, "again", &[("a", "1")]), "main", 3);
    assert_eq!(clean::render(&r), clean::render(&r));
    assert_eq!(pretty::render(&r, true), pretty::render(&r, true));
    assert_eq!(ndjson::render(&r, 42), ndjson::render(&r, 42));
}

#[test]
fn ndjson_escapes_control_characters() {
    let r = record(Level::Info, "a\u{1}b\u{1f}\u{8}\u{c}\r", &[]);
    let out = ndjson::render(&r, 1);
    assert_eq!(
        out,
        "{\"level\":30,\"time\":1,\"msg\":\"a\\u0001b\\u001f\\b\\f\\r\"}\n"
    );
}
