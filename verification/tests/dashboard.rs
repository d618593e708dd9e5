use fluent_ecs::kubernetes_dashboard::{
    convert_kubernetes_dashboard_metrics_scraper, convert_severity,
};
use fluent_ecs::model::FluentBitJson;
use fluent_ecs::time::Timestamp;

fn record(text: &str) -> FluentBitJson {
    let mut json = FluentBitJson::new();
    json.other = serde_json::from_str(text).unwrap();
    json
}

#[test]
fn dashboard_severity_table() {
    assert_eq!(convert_severity("info"), Some(200));
    assert_eq!(convert_severity("warning"), Some(300));
    assert_eq!(convert_severity("error"), Some(400));
    assert_eq!(convert_severity("fatal"), Some(500));
    assert_eq!(convert_severity("warn"), None);
    assert_eq!(convert_severity("debug"), None);
}

#[test]
fn fields_of_a_scraper_record() {
    let mut json = record(
        r#"{"level": "error", "msg": "Error scraping node metrics", "time": "2023-11-16T12:00:00Z",
            "other": true}"#,
    );
    convert_kubernetes_dashboard_metrics_scraper(&mut json);
    assert_eq!(json.timestamp, Some(Timestamp { secs: 1700136000, nanos: 0, offset: 0 }));
    assert_eq!(json.message.as_deref(), Some("Error scraping node metrics"));
    assert_eq!(json.event().module.as_deref(), Some("kubernetes_dashboard"));
    assert_eq!(json.event().severity, Some(400));
    assert_eq!(json.event().kind, None);
    assert_eq!(json.log().level.as_deref(), Some("error"));
    assert_eq!(json.other.len(), 1);
    assert!(json.misc.is_empty());
}

#[test]
fn msg_that_is_no_text_becomes_json_text() {
    let mut json = record(r#"{"msg": {"code": 7}, "time": "noon"}"#);
    convert_kubernetes_dashboard_metrics_scraper(&mut json);
    assert_eq!(json.message.as_deref(), Some("{\"code\":7}"));
    assert_eq!(json.misc, vec!["time:noon".to_string()]);
    assert_eq!(json.timestamp, None);
}
