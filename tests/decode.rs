use clever::{ClefLine, DecodeError, Prop, Timestamp, format_timestamp, render_template, display_timestamp};

fn props(entries: Vec<(&str, Prop)>) -> Vec<(String, Prop)> {
    entries.into_iter().map(|(k, v)| (k.to_string(), v)).collect()
}

#[test]
fn integer_placeholder_is_substituted() {
    let ps = props(vec![("a", Prop::Int(5))]);
    assert_eq!(render_template("{a} items", &ps), "5 items");
}

#[test]
fn integer_placeholder_from_line() {
    let c = ClefLine::new(r#"{"@mt":"{a} items","a":5}"#).unwrap();
    assert_eq!(c.rendered, "5 items");
    assert_eq!(c.template, "{a} items");
}

#[test]
fn missing_key_renders_empty() {
    let c = ClefLine::new(r#"{"@mt":"{missing}","a":1}"#).unwrap();
    assert_eq!(c.rendered, "empty");
}

#[test]
fn float_bool_null_render_empty() {
    for line in [
        r#"{"@mt":"{x}","x":3.14}"#,
        r#"{"@mt":"{x}","x":true}"#,
        r#"{"@mt":"{x}","x":null}"#,
        r#"{"@mt":"{x}","x":[1,2]}"#,
        r#"{"@mt":"{x}","x":{"y":1}}"#,
        r#"{"@mt":"{x}","x":18446744073709551615}"#,
    ] {
        let c = ClefLine::new(line).unwrap();
        assert_eq!(c.rendered, "empty", "line {}", line);
    }
}

#[test]
fn string_and_negative_integer_values() {
    let c = ClefLine::new(r#"{"@mt":"{who} owes {n}","who":"{bob}","n":-9223372036854775808}"#).unwrap();
    assert_eq!(c.rendered, "{bob} owes -9223372036854775808");
}

#[test]
fn display_timestamp_pattern() {
    let c = ClefLine::new(r#"{"@t":"2024-01-05T13:07:22Z","@mt":"hi"}"#).unwrap();
    assert_eq!(c.timestamp, "05.01.24 13:07:22");
    assert_eq!(c.time, "2024-01-05T13:07:22Z");
}

#[test]
fn timestamp_keeps_local_offset_and_fraction() {
    assert_eq!(display_timestamp("1999-12-31T23:59:59.999+05:30"), Some("31.12.99 23:59:59".to_string()));
    assert_eq!(display_timestamp("2016-12-31T23:59:60Z"), Some("31.12.16 23:59:60".to_string()));
    assert_eq!(display_timestamp(""), Some(String::new()));
    assert_eq!(display_timestamp("yesterday"), None);
}

#[test]
fn format_timestamp_fields() {
    let t = Timestamp { year: 2005, month: 3, day: 9, hour: 0, minute: 1, second: 2, nanosecond: 1_500_000_000 };
    assert_eq!(format_timestamp(&t), "09.03.05 00:01:03");
    let t = Timestamp { year: -1, month: 12, day: 31, hour: 23, minute: 59, second: 59, nanosecond: 0 };
    assert_eq!(format_timestamp(&t), "31.12.99 23:59:59");
}

#[test]
fn bare_object_decodes_to_empty_event() {
    let c = ClefLine::new("{}").unwrap();
    for f in [&c.time, &c.timestamp, &c.message, &c.template, &c.rendered, &c.level, &c.exception, &c.eventid, &c.renderings] {
        assert_eq!(f, "");
    }
    assert!(c.properties.is_empty());
}

#[test]
fn non_json_is_malformed() {
    assert_eq!(ClefLine::new("not json"), Err(DecodeError::MalformedJson));
    assert_eq!(ClefLine::new(r#"{"@mt": "x""#), Err(DecodeError::MalformedJson));
}

#[test]
fn non_object_is_invalid_shape() {
    assert_eq!(ClefLine::new("[1, 2]"), Err(DecodeError::InvalidShape));
    assert_eq!(ClefLine::new("\"text\""), Err(DecodeError::InvalidShape));
}

#[test]
fn bad_timestamp_is_invalid() {
    assert_eq!(ClefLine::new(r#"{"@t":"05.01.2024","@mt":"x"}"#), Err(DecodeError::InvalidTimestamp));
}

#[test]
fn non_string_reserved_fields_read_as_empty() {
    let c = ClefLine::new(r#"{"@t":5,"@l":true,"@mt":"ok","@i":7}"#).unwrap();
    assert_eq!(c.time, "");
    assert_eq!(c.timestamp, "");
    assert_eq!(c.level, "");
    assert_eq!(c.eventid, "");
    assert_eq!(c.rendered, "ok");
}

#[test]
fn message_used_when_template_empty() {
    let c = ClefLine::new(r#"{"@m":"done {a}","a":1,"@l":"Warning","@x":"boom","@r":"r"}"#).unwrap();
    assert_eq!(c.template, "done {a}");
    assert_eq!(c.message, "done {a}");
    assert_eq!(c.rendered, "done 1");
    assert_eq!(c.level, "Warning");
    assert_eq!(c.exception, "boom");
    assert_eq!(c.renderings, "r");
}

#[test]
fn plain_template_is_unchanged() {
    let c = ClefLine::new(r#"{"@mt":"no } pairs { here","a":1}"#).unwrap();
    assert_eq!(c.rendered, c.template);
    assert_eq!(c.render(), c.template);
}

#[test]
fn rendering_twice_changes_nothing() {
    let ps = props(vec![("a", Prop::Str("x".to_string())), ("b", Prop::Int(2))]);
    let once = render_template("{a}-{b}-{c}", &ps);
    assert_eq!(once, "x-2-empty");
    assert_eq!(render_template(&once, &ps), once);
}

#[test]
fn braces_pair_with_next_close() {
    let ps = props(vec![("a", Prop::Int(1)), ("a{b", Prop::Int(2))]);
    assert_eq!(render_template("} {a} {a{b} {", &ps), "} 1 2 {");
    assert_eq!(render_template("{}", &ps), "empty");
    assert_eq!(render_template("", &ps), "");
}

#[test]
fn first_duplicate_entry_wins_in_lookup() {
    let ps = props(vec![("k", Prop::Int(1)), ("k", Prop::Int(2))]);
    assert_eq!(render_template("{k}", &ps), "1");
}

#[test]
fn from_properties_without_time() {
    let c = ClefLine::from_properties(props(vec![("@mt", Prop::Str("{v}!".to_string())), ("v", Prop::Int(42))])).unwrap();
    assert_eq!(c.rendered, "42!");
    assert_eq!(c.timestamp, "");
}

#[test]
fn failed_lines_are_set_aside_in_order() {
    let input: Vec<String> = vec![
        r#"{"@mt":"first"}"#.to_string(),
        "not json".to_string(),
        r#"{"@mt":"second {n}","n":2}"#.to_string(),
        "[]".to_string(),
        r#"{"@t":"bad","@mt":"x"}"#.to_string(),
        r#"{"@mt":"third"}"#.to_string(),
    ];
    let (events, failures) = clever::decode_lines(&input);
    let shown: Vec<&str> = events.iter().map(|c| c.rendered.as_str()).collect();
    assert_eq!(shown, vec!["first", "second 2", "third"]);
    assert_eq!(
        failures,
        vec![(1, DecodeError::MalformedJson), (3, DecodeError::InvalidShape), (4, DecodeError::InvalidTimestamp)]
    );
}
