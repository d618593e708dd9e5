use fluent_ecs::etcd::{convert_etcd_logs, convert_severity, split_duration, DurationUnit};
use fluent_ecs::model::{EventOrString, FluentBitJson, LogOrString};
use fluent_ecs::time::Timestamp;
use serde_json::Value;

fn record(text: &str) -> FluentBitJson {
    let mut json = FluentBitJson::new();
    json.other = serde_json::from_str(text).unwrap();
    json
}

fn nanos(duration: &str) -> Option<u64> {
    let (number, unit) = split_duration(duration)?;
    let number = number.parse::<f64>().ok()?;
    Some((number * unit.nanos_per_unit() as f64) as u64)
}

#[test]
fn severity_table() {
    assert_eq!(convert_severity("debug"), Some(100));
    assert_eq!(convert_severity("info"), Some(200));
    assert_eq!(convert_severity("warn"), Some(300));
    assert_eq!(convert_severity("error"), Some(400));
    assert_eq!(convert_severity("warning"), None);
    assert_eq!(convert_severity("INFO"), None);
    assert_eq!(convert_severity(""), None);
    assert_eq!(convert_severity("fatal"), None);
}

#[test]
fn split_duration_finds_the_unit() {
    assert_eq!(split_duration("1.5ms"), Some(("1.5".to_string(), DurationUnit::Milliseconds)));
    assert_eq!(split_duration("2s"), Some(("2".to_string(), DurationUnit::Seconds)));
    assert_eq!(split_duration("ms"), Some(("".to_string(), DurationUnit::Milliseconds)));
    assert_eq!(split_duration("s"), Some(("".to_string(), DurationUnit::Seconds)));
    assert_eq!(split_duration("3µs"), Some(("3µ".to_string(), DurationUnit::Seconds)));
    assert_eq!(split_duration("1.5m"), None);
    assert_eq!(split_duration("10"), None);
    assert_eq!(split_duration(""), None);
}

#[test]
fn duration_units_in_nanoseconds() {
    assert_eq!(DurationUnit::Milliseconds.nanos_per_unit(), 1_000_000);
    assert_eq!(DurationUnit::Seconds.nanos_per_unit(), 1_000_000_000);
}

#[test]
fn took_of_one_and_a_half_milliseconds() {
    let mut json = record(r#"{"took": "1.5ms", "msg": "apply request took too long"}"#);
    let took = nanos("1.5ms");
    assert_eq!(took, Some(1_500_000));
    convert_etcd_logs(&mut json, took);
    assert_eq!(json.event().duration, Some(1_500_000));
    assert_eq!(json.message.as_deref(), Some("apply request took too long"));
    assert!(json.other.is_empty());
}

#[test]
fn took_in_seconds() {
    let mut json = record(r#"{"took": "2s"}"#);
    convert_etcd_logs(&mut json, nanos("2s"));
    assert_eq!(json.event().duration, Some(2_000_000_000));
}

#[test]
fn took_with_an_unknown_unit_leaves_no_duration() {
    let mut json = record(r#"{"took": "3m"}"#);
    json.event().duration = Some(7);
    convert_etcd_logs(&mut json, nanos("3m"));
    assert_eq!(json.event().duration, None);
    assert!(json.misc.is_empty());
    assert!(!json.other.contains_key("took"));
}

#[test]
fn took_that_is_no_text_goes_to_misc() {
    let mut json = record(r#"{"took": 15}"#);
    json.event().duration = Some(7);
    convert_etcd_logs(&mut json, Some(99));
    assert_eq!(json.event().duration, Some(7));
    assert!(!json.other.contains_key("took"));
    assert_eq!(json.misc, vec!["took:15".to_string()]);
}

#[test]
fn values_that_are_no_texts_go_to_misc() {
    let mut json = record(
        r#"{"level": 5, "ts": 1700136000, "msg": ["a", "b"], "took": {"ms": 1}, "caller": null}"#,
    );
    convert_etcd_logs(&mut json, None);
    assert_eq!(
        json.misc,
        vec![
            "level:5".to_string(),
            "ts:1700136000".to_string(),
            "msg:a,b".to_string(),
            "took:{\"ms\":1}".to_string(),
            "caller:null".to_string(),
        ]
    );
    assert!(json.other.is_empty());
    assert_eq!(json.message, None);
    assert_eq!(json.timestamp, None);
    assert_eq!(json.event().severity, None);
    assert_eq!(json.log().level, None);
}

#[test]
fn caller_that_names_no_line_goes_to_misc() {
    let mut json = record(r#"{"caller": "server.go"}"#);
    convert_etcd_logs(&mut json, None);
    assert_eq!(json.misc, vec!["caller:server.go".to_string()]);
    assert!(json.log().origin.is_none());
}

#[test]
fn fields_of_an_etcd_record() {
    let mut json = record(
        r#"{"level": "warn", "ts": "2023-11-16T12:00:00Z", "caller": "etcdserver/util.go:170",
            "msg": "slow request", "unknown": {"a": 1}}"#,
    );
    convert_etcd_logs(&mut json, None);
    assert_eq!(json.timestamp, Some(Timestamp { secs: 1700136000, nanos: 0, offset: 0 }));
    assert_eq!(json.message.as_deref(), Some("slow request"));
    assert_eq!(json.service().type_val.as_deref(), Some("etcd"));
    let event = json.event();
    assert_eq!(event.kind.as_deref(), Some("event"));
    assert_eq!(event.module.as_deref(), Some("etcd"));
    assert_eq!(event.category, vec!["database".to_string()]);
    assert_eq!(event.severity, Some(300));
    let log = json.log();
    assert_eq!(log.level.as_deref(), Some("warn"));
    let file = log.origin().file();
    assert_eq!(file.name.as_deref(), Some("etcdserver/util.go"));
    assert_eq!(file.line, Some(170));
    assert_eq!(json.other.len(), 1);
    assert_eq!(json.other.get("unknown"), Some(&serde_json::from_str::<Value>(r#"{"a": 1}"#).unwrap()));
    assert!(json.misc.is_empty());
}

#[test]
fn timestamp_with_an_offset_keeps_the_offset() {
    let mut json = record(r#"{"ts": "2023-11-16T13:27:38.555+01:00"}"#);
    convert_etcd_logs(&mut json, None);
    assert_eq!(
        json.timestamp,
        Some(Timestamp { secs: 1700137658, nanos: 555_000_000, offset: 3600 })
    );
}

#[test]
fn timestamp_that_is_no_date_goes_to_misc() {
    let mut json = record(r#"{"ts": "yesterday"}"#);
    convert_etcd_logs(&mut json, None);
    assert_eq!(json.timestamp, None);
    assert_eq!(json.misc, vec!["ts:yesterday".to_string()]);
    assert!(json.other.is_empty());
}

#[test]
fn unknown_level_gives_no_severity() {
    let mut json = record(r#"{"level": "panic"}"#);
    json.event().severity = Some(1);
    convert_etcd_logs(&mut json, None);
    assert_eq!(json.event().severity, None);
    assert_eq!(json.log().level.as_deref(), Some("panic"));
}

#[test]
fn missing_level_keeps_the_severity() {
    let mut json = record(r#"{}"#);
    json.event().severity = Some(1);
    convert_etcd_logs(&mut json, None);
    assert_eq!(json.event().severity, Some(1));
    assert_eq!(json.log().level, None);
}

#[test]
fn known_keys_without_a_field_go_to_misc_in_order() {
    let mut json = record(
        r#"{"revision": 5, "hash": 123, "prefix": "/registry", "response": ["a", "b"],
            "compact-index": 1, "compact-revision": 2, "expected-duration": "100ms",
            "request": {"k": 1}}"#,
    );
    convert_etcd_logs(&mut json, None);
    assert_eq!(
        json.misc,
        vec![
            "hash:123".to_string(),
            "compact-index:1".to_string(),
            "compact-revision:2".to_string(),
            "expected-duration:100ms".to_string(),
            "prefix:/registry".to_string(),
            "request:{\"k\":1}".to_string(),
            "response:a,b".to_string(),
            "revision:5".to_string(),
        ]
    );
    assert!(json.other.is_empty());
}

#[test]
fn plain_texts_in_event_and_log_are_replaced() {
    let mut json = record(r#"{"level": "info"}"#);
    json.event = Some(EventOrString::String("something".to_string()));
    json.log = Some(LogOrString::String("a line".to_string()));
    convert_etcd_logs(&mut json, None);
    assert!(matches!(json.event, Some(EventOrString::Event(_))));
    assert!(matches!(json.log, Some(LogOrString::Log(_))));
    assert_eq!(json.event().severity, Some(200));
    assert_eq!(json.misc, vec!["event:something".to_string(), "log:a line".to_string()]);
}

#[test]
fn category_is_added_to_those_of_the_record() {
    let mut json = record(r#"{}"#);
    json.event().category.push("old".to_string());
    json.event().type_val.push("info".to_string());
    convert_etcd_logs(&mut json, None);
    assert_eq!(json.event().category, vec!["old".to_string(), "database".to_string()]);
    assert_eq!(json.event().type_val, vec!["info".to_string()]);
}

#[test]
fn a_message_that_is_replaced_goes_to_misc() {
    let mut json = record(r#"{"msg": "new"}"#);
    json.message = Some("old".to_string());
    convert_etcd_logs(&mut json, None);
    assert_eq!(json.message.as_deref(), Some("new"));
    assert_eq!(json.misc, vec!["message:old".to_string()]);

    let mut json = record(r#"{}"#);
    json.message = Some("old".to_string());
    convert_etcd_logs(&mut json, None);
    assert_eq!(json.message.as_deref(), Some("old"));
    assert!(json.misc.is_empty());
}
