use armature_log::render::{
    escape_json, json_record, render_compact, render_pretty, LevelStyle, TermColor,
};
use armature_log::{render_json, write_compact, write_pretty, Level};

#[test]
fn render_json_includes_all_expected_fields() {
    let json = render_json(Level::Info, "my_target", "hello world")
        .expect("render_json should succeed for plain string payloads");

    assert!(json.contains("\"timestamp\":\""), "missing timestamp field: {json}");
    assert!(json.contains("\"level\":\"INFO\""), "missing/wrong level field: {json}");
    assert!(json.contains("\"target\":\"my_target\""), "missing/wrong target field: {json}");
    assert!(json.contains("\"message\":\"hello world\""), "missing/wrong message field: {json}");
    assert!(json.starts_with('{') && json.ends_with('}'));
}

#[test]
fn render_json_escapes_special_characters_in_message() {
    let json = render_json(Level::Error, "t", "line1\nline2 \"quoted\"").expect("render_json should succeed");

    assert!(!json.contains("line1\nline2"));
    assert!(json.contains("\\n"));
    assert!(json.contains("\\\"quoted\\\""));
}

#[test]
fn render_json_is_valid_parseable_json() {
    let json = render_json(Level::Warn, "svc::mod", "boom").expect("render_json should succeed");

    let value: serde_json::Value =
        serde_json::from_str(&json).expect("render_json output must be valid JSON");

    assert_eq!(value["level"], "WARN");
    assert_eq!(value["target"], "svc::mod");
    assert_eq!(value["message"], "boom");
    assert!(value["timestamp"].is_string());
    assert_eq!(
        value.as_object().map(|o| o.len()),
        Some(4),
        "expected exactly timestamp/level/target/message, got: {value}"
    );
}

#[test]
fn json_record_lays_out_the_fields_in_order() {
    let json = json_record("2024-12-20T12:00:00Z", Level::Info, "my_app", "Server started")
        .expect("plain strings serialize");
    assert_eq!(
        json,
        "{\"timestamp\":\"2024-12-20T12:00:00Z\",\"level\":\"INFO\",\"target\":\"my_app\",\"message\":\"Server started\"}"
    );
}

#[test]
fn json_record_escapes_control_characters() {
    let json = json_record("ts", Level::Debug, "a\\b", "tab\tbell\u{7}").expect("serializes");
    assert_eq!(
        json,
        "{\"timestamp\":\"ts\",\"level\":\"DEBUG\",\"target\":\"a\\\\b\",\"message\":\"tab\\tbell\\u0007\"}"
    );
    assert!(!json.contains('\t'));
}

#[test]
fn write_pretty_renders_expected_shape_without_timestamp() {
    let out = write_pretty(Level::Warn, "my::target", "careful now", false, false, true);
    assert_eq!(out, "WARN  [my::target] careful now\n");
}

#[test]
fn write_pretty_includes_timestamp_when_enabled() {
    let out = write_pretty(Level::Info, "", "started", false, true, true);

    assert!(out.contains("INFO  started"), "expected level+message, got: {out:?}");
    let ts_prefix = out.split("INFO").next().unwrap();
    assert!(ts_prefix.len() >= 20, "expected a timestamp-shaped prefix, got: {ts_prefix:?}");
}

#[test]
fn write_pretty_omits_target_when_module_path_disabled() {
    let out = write_pretty(Level::Error, "should::not::appear", "oops", false, false, false);

    assert_eq!(out, "ERROR oops\n");
    assert!(!out.contains("should::not::appear"));
}

#[test]
fn write_pretty_pads_every_level_to_five() {
    assert_eq!(write_pretty(Level::Trace, "", "m", false, false, true), "TRACE m\n");
    assert_eq!(write_pretty(Level::Debug, "", "m", false, false, true), "DEBUG m\n");
    assert_eq!(write_pretty(Level::Off, "", "m", false, false, true), "OFF   m\n");
}

#[test]
fn write_pretty_with_color_keeps_the_text() {
    let out = write_pretty(Level::Error, "svc", "bad", true, false, true);
    assert!(out.contains("ERROR"));
    assert!(out.contains("[svc]"));
    assert!(out.ends_with(" bad\n"));
}

#[test]
fn render_pretty_lays_out_given_fields() {
    assert_eq!(
        render_pretty(Some("2024-12-20 12:00:00.123"), "INFO ", Some("[my_app]"), "Server started"),
        "2024-12-20 12:00:00.123 INFO  [my_app] Server started\n"
    );
    assert_eq!(render_pretty(None, "WARN ", None, ""), "WARN  \n");
}

#[test]
fn write_compact_renders_expected_shape_without_timestamp() {
    let out = write_compact(Level::Debug, "svc", "message here", false, true);
    assert_eq!(out, "D svc: message here\n");
}

#[test]
fn write_compact_omits_target_when_module_path_disabled() {
    let out = write_compact(Level::Trace, "svc", "hi", false, false);
    assert_eq!(out, "T hi\n");
}

#[test]
fn write_compact_includes_timestamp_when_enabled() {
    let out = write_compact(Level::Info, "", "go", true, true);

    assert!(out.contains("I go"), "expected level+message, got: {out:?}");
    let ts_prefix = out.split('I').next().unwrap();
    assert_eq!(ts_prefix.len(), 9, "expected an 'HH:MM:SS ' shaped prefix, got: {ts_prefix:?}");
}

#[test]
fn render_compact_lays_out_given_fields() {
    assert_eq!(
        render_compact(Some("12:00:00"), Level::Info, "my_app", "Server started", true),
        "12:00:00 I my_app: Server started\n"
    );
    assert_eq!(render_compact(None, Level::Off, "", "x", true), "O x\n");
}

#[test]
fn escape_json_escapes_quotes_backslashes_and_controls() {
    assert_eq!(escape_json("plain text"), "plain text");
    assert_eq!(escape_json("say \"hi\""), "say \\\"hi\\\"");
    assert_eq!(escape_json("a\\b"), "a\\\\b");
    assert_eq!(escape_json("l1\nl2\r\t"), "l1\\nl2\\r\\t");
    assert_eq!(escape_json("\u{1}\u{1f}\u{7f}\u{9f}"), "\\u0001\\u001f\\u007f\\u009f");
    assert_eq!(escape_json("é\u{a0}"), "é\u{a0}");
    assert_eq!(escape_json(""), "");
}

#[test]
fn write_compact_timestamp_is_a_time_of_day() {
    let out = write_compact(Level::Warn, "", "x", true, false);
    let stamp: Vec<char> = out.chars().take(8).collect();
    for (i, c) in stamp.iter().enumerate() {
        if i == 2 || i == 5 {
            assert_eq!(*c, ':', "got: {out:?}");
        } else {
            assert!(c.is_ascii_digit(), "got: {out:?}");
        }
    }
    assert_eq!(&out[8..], " W x\n");
}

#[test]
fn write_pretty_timestamp_is_a_local_date_time() {
    let out = write_pretty(Level::Warn, "", "x", false, true, false);
    let stamp: Vec<char> = out.chars().take(23).collect();
    assert_eq!(stamp[4], '-');
    assert_eq!(stamp[10], ' ');
    assert_eq!(stamp[19], '.');
    assert!(stamp[0].is_ascii_digit() && stamp[22].is_ascii_digit(), "got: {out:?}");
    assert!(out.ends_with(" WARN  x\n"));
}

#[test]
fn level_styles_follow_the_level() {
    assert_eq!(Level::Trace.colored(), LevelStyle { color: TermColor::Magenta, bold: false });
    assert_eq!(Level::Debug.colored(), LevelStyle { color: TermColor::Blue, bold: false });
    assert_eq!(Level::Info.colored(), LevelStyle { color: TermColor::Green, bold: false });
    assert_eq!(Level::Warn.colored(), LevelStyle { color: TermColor::Yellow, bold: false });
    assert_eq!(Level::Error.colored(), LevelStyle { color: TermColor::Red, bold: true });
    assert_eq!(Level::Off.colored(), LevelStyle { color: TermColor::White, bold: false });
    assert_eq!(TermColor::Magenta.name(), "magenta");
    assert_eq!(TermColor::White.name(), "white");
}

#[test]
fn write_pretty_with_color_keeps_brackets_and_padding() {
    let out = write_pretty(Level::Warn, "my::target", "careful now", true, false, true);
    assert!(out.contains("WARN "), "got: {out:?}");
    assert!(out.contains("[my::target]"), "got: {out:?}");
    assert!(out.ends_with(" careful now\n"), "got: {out:?}");
}

#[test]
fn render_json_stamps_utc_rfc3339() {
    let json = render_json(Level::Info, "t", "m").expect("always rendered");
    let value: serde_json::Value = serde_json::from_str(&json).expect("valid JSON");
    let stamp = value["timestamp"].as_str().expect("a string").to_string();
    assert!(stamp.len() >= 20, "got: {stamp:?}");
    assert!(stamp.ends_with('Z'), "got: {stamp:?}");
    let chars: Vec<char> = stamp.chars().collect();
    assert_eq!(chars[4], '-');
    assert_eq!(chars[10], 'T');
    assert_eq!(chars[13], ':');
}

#[test]
fn write_pretty_with_color_is_plain_or_ansi_styled() {
    let out = write_pretty(Level::Warn, "t", "m", true, false, true);
    assert!(
        out == "WARN  [t] m\n" || out == "\u{1b}[33mWARN \u{1b}[0m \u{1b}[2m[t]\u{1b}[0m m\n",
        "got: {out:?}"
    );
    let out = write_pretty(Level::Error, "", "m", true, false, true);
    assert!(out == "ERROR m\n" || out == "\u{1b}[1;31mERROR\u{1b}[0m m\n", "got: {out:?}");
}
