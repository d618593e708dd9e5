use fluent_ecs::extract::{apply_timestamp, take_timestamp};
use fluent_ecs::model::FluentBitJson;
use fluent_ecs::time::Timestamp;
use serde_json::Value;

#[test]
fn same_instant_ignores_the_offset() {
    let a = Timestamp { secs: 10, nanos: 5, offset: 0 };
    let b = Timestamp { secs: 10, nanos: 5, offset: 7200 };
    let c = Timestamp { secs: 10, nanos: 6, offset: 0 };
    let d = Timestamp { secs: 11, nanos: 5, offset: 0 };
    assert!(a.is_same_instant(&b));
    assert!(a.is_same_instant(&a));
    assert!(!a.is_same_instant(&c));
    assert!(!a.is_same_instant(&d));
}

#[test]
fn take_timestamp_reads_rfc3339() {
    let mut json = FluentBitJson::new();
    json.other.insert("ts".to_string(), Value::String("1970-01-01T00:00:01.000000002-00:30".to_string()));
    take_timestamp(&mut json, "ts", "stamp");
    assert_eq!(json.timestamp, Some(Timestamp { secs: 1801, nanos: 2, offset: -1800 }));
    assert!(json.other.is_empty());
    assert!(json.misc.is_empty());
}

#[test]
fn take_timestamp_agrees_with_chrono() {
    for text in ["2023-11-16T13:27:38.555+01:00", "2024-02-29T23:59:59Z", "1999-12-31T23:59:60+00:00"] {
        let mut json = FluentBitJson::new();
        json.other.insert("ts".to_string(), Value::String(text.to_string()));
        take_timestamp(&mut json, "ts", "ts");
        let expected = chrono::DateTime::parse_from_rfc3339(text).unwrap();
        let got = json.timestamp.unwrap();
        assert_eq!(got.secs, expected.timestamp());
        assert_eq!(got.nanos, expected.timestamp_subsec_nanos());
        assert_eq!(got.offset, expected.offset().local_minus_utc());
    }
}

#[test]
fn take_timestamp_keeps_a_text_that_is_no_date() {
    let mut json = FluentBitJson::new();
    json.timestamp = Some(Timestamp { secs: 1, nanos: 0, offset: 0 });
    json.other.insert("ts".to_string(), Value::String("2023-11-16 13:27:38".to_string()));
    take_timestamp(&mut json, "ts", "stamp");
    assert_eq!(json.timestamp, Some(Timestamp { secs: 1, nanos: 0, offset: 0 }));
    assert_eq!(json.misc, vec!["stamp:2023-11-16 13:27:38".to_string()]);
    assert!(json.other.is_empty());
}

#[test]
fn take_timestamp_keeps_a_value_that_is_no_text() {
    let mut json = FluentBitJson::new();
    json.other.insert("timestamp".to_string(), Value::from(1700137658));
    take_timestamp(&mut json, "timestamp", "ts");
    assert_eq!(json.timestamp, None);
    assert_eq!(json.misc, vec!["ts:1700137658".to_string()]);
    assert!(json.other.is_empty());
}

#[test]
fn apply_timestamp_takes_the_outcome_as_given() {
    let mut json = FluentBitJson::new();
    apply_timestamp(&mut json, "ts", "whatever", Some(Timestamp { secs: 5, nanos: 0, offset: 0 }));
    assert_eq!(json.timestamp, Some(Timestamp { secs: 5, nanos: 0, offset: 0 }));
    assert!(json.misc.is_empty());
    apply_timestamp(&mut json, "ts", "whatever", None);
    assert_eq!(json.timestamp, Some(Timestamp { secs: 5, nanos: 0, offset: 0 }));
    assert_eq!(json.misc, vec!["ts:whatever".to_string()]);
}
