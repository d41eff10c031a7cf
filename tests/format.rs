use ff::{extract_date, extract_severity, format_line, render_residual, severity_fmt, Output};

fn object(text: &str) -> json::object::Object {
    match json::parse(text).unwrap() {
        json::JsonValue::Object(o) => o,
        other => panic!("not an object: {}", other.dump()),
    }
}

fn rfc3339(t: &ff::Timestamp) -> String {
    assert_eq!(t.offset_seconds, 0);
    format!(
        "{:04}-{:02}-{:02}T{:02}:{:02}:{:02}.{:03}Z",
        t.year,
        t.month,
        t.day,
        t.hour,
        t.minute,
        t.second,
        t.nanosecond / 1_000_000
    )
}

#[test]
fn test_date_extraction() {
    let kv_pairs: [(&str, &str); 3] = [
        ("time", "1970-01-01T01:23:45.000Z"),
        ("ts", "2020-02-03T12:34:56.000Z"),
        ("timestamp", "1234-05-06T07:08:09.000Z"),
    ];
    for tup in &kv_pairs {
        let [key, value] = [tup.0, tup.1];
        let input_str = format!("{{\"{}\":\"{}\"}}", key, value);

        let input = object(input_str.as_str());
        let result = extract_date(&input).unwrap();

        let result_key = result.1;
        let result_value = rfc3339(&result.0);
        assert_eq!(result_key, key);
        assert_eq!(result_value, String::from(value));
    }
}

#[test]
fn prints_zeroes_on_missing_timestamp() {
    let input_str = r#"{"message":"hi","severity":"info"}"#;
    let input_json = object(input_str);
    let expected = String::from("00:00:000.000 [INFO ] hi");
    let output = format_line(input_json, &Output::Normal, false);
    assert_eq!(output, expected);
}

#[test]
fn date_key_priority() {
    let o = object(r#"{"timestamp":"2001-01-01T00:00:00Z","time":"2002-02-02T00:00:00Z","ts":"2003-03-03T00:00:00Z"}"#);
    let (t, k) = extract_date(&o).unwrap();
    assert_eq!(k, "ts");
    assert_eq!(t.year, 2003);
    let o = object(r#"{"timestamp":"2001-01-01T00:00:00Z","time":"2002-02-02T00:00:00Z"}"#);
    assert_eq!(extract_date(&o).unwrap().1, "time");
}

#[test]
fn first_date_key_decides_even_when_bad() {
    let o = object(r#"{"ts":"yesterday","time":"2002-02-02T00:00:00Z"}"#);
    assert!(extract_date(&o).is_none());
    let o = object(r#"{"ts":12,"time":"2002-02-02T00:00:00Z"}"#);
    assert!(extract_date(&o).is_none());
    let o = object(r#"{"when":"2002-02-02T00:00:00Z"}"#);
    assert!(extract_date(&o).is_none());
}

#[test]
fn date_keeps_its_own_offset() {
    let o = object(r#"{"time":"2020-01-01T10:00:00.250+02:00"}"#);
    let (t, _) = extract_date(&o).unwrap();
    assert_eq!((t.hour, t.minute, t.second), (10, 0, 0));
    assert_eq!(t.offset_seconds, 7200);
    assert_eq!(t.clock(), "10:00:00.250");
}

#[test]
fn clock_truncates_to_milliseconds() {
    let o = object(r#"{"time":"1999-05-08T22:40:00.123987Z"}"#);
    assert_eq!(extract_date(&o).unwrap().0.clock(), "22:40:00.123");
    let o = object(r#"{"time":"2000-01-01T03:04:05Z"}"#);
    assert_eq!(extract_date(&o).unwrap().0.clock(), "03:04:05.000");
}

#[test]
fn clock_shows_leap_second() {
    let o = object(r#"{"time":"2016-12-31T23:59:60.500Z"}"#);
    assert_eq!(extract_date(&o).unwrap().0.clock(), "23:59:60.500");
}

#[test]
fn severity_key_priority() {
    let o = object(r#"{"lvl":"debug","level":"warn","severity":"error"}"#);
    assert_eq!(extract_severity(&o), Some(("error", "severity")));
    let o = object(r#"{"lvl":"debug","level":"warn"}"#);
    assert_eq!(extract_severity(&o), Some(("warn", "level")));
    let o = object(r#"{"lvl":"debug"}"#);
    assert_eq!(extract_severity(&o), Some(("debug", "lvl")));
    let o = object(r#"{"level":3,"lvl":"debug"}"#);
    assert_eq!(extract_severity(&o), None);
    let o = object(r#"{"message":"x"}"#);
    assert_eq!(extract_severity(&o), None);
}

#[test]
fn severity_labels_uncolored() {
    assert_eq!(severity_fmt("trace", false), "[TRACE]");
    assert_eq!(severity_fmt("debug", false), "[DEBUG]");
    assert_eq!(severity_fmt("info", false), "[INFO ]");
    assert_eq!(severity_fmt("warn", false), "[WARN ]");
    assert_eq!(severity_fmt("warning", false), "[WARN ]");
    assert_eq!(severity_fmt("error", false), "[ERROR]");
    assert_eq!(severity_fmt("fatal", false), "[FATAL]");
    assert_eq!(severity_fmt("notice", false), "notice");
    assert_eq!(severity_fmt("INFO", false), "INFO");
    assert_eq!(severity_fmt("", false), "");
}

#[test]
fn severity_labels_are_seven_wide() {
    for s in ["trace", "debug", "info", "warn", "warning", "error", "fatal"] {
        let label = severity_fmt(s, false);
        assert_eq!(label.chars().count(), 7, "{}", s);
        assert!(label.starts_with('[') && label.ends_with(']'));
    }
}

#[test]
fn severity_labels_colored() {
    assert_eq!(severity_fmt("trace", true), "[TRACE]");
    assert_eq!(severity_fmt("debug", true), "[\x1B[97mDEBUG\x1B[0m]");
    assert_eq!(severity_fmt("info", true), "[\x1B[32mINFO\x1B[0m ]");
    assert_eq!(severity_fmt("warning", true), "[\x1B[33mWARN\x1B[0m ]");
    assert_eq!(severity_fmt("error", true), "[\x1B[31mERROR\x1B[0m]");
    assert_eq!(severity_fmt("fatal", true), "[\x1B[97mFATAL\x1B[0m]");
    assert_eq!(severity_fmt("notice", true), "notice");
}

#[test]
fn residual_empty_object() {
    assert_eq!(render_residual(&object("{}"), false), "");
    assert_eq!(render_residual(&object("{}"), true), "");
}

#[test]
fn residual_block_layout() {
    let o = object(r#"{"status_code":200,"tags":["a","b"],"ok":true}"#);
    assert_eq!(
        render_residual(&o, false),
        "\n  status_code: 200\n  tags:\n    - a\n    - b\n  ok: true"
    );
    let o = object(r#"{"nested_1":{"nested_2":"correct!"}}"#);
    assert_eq!(
        render_residual(&o, true),
        "\x1B[90m\n  nested_1:\n    nested_2: correct!\x1B[0m"
    );
}
