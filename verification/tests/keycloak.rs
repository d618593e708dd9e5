use fluent_ecs::grammar::keycloak::parse_event_line;
use fluent_ecs::keycloak::{
    convert_keycloak_logs, convert_severity, parse_event_key_value_par, parse_event_log, unmask,
};
use fluent_ecs::model::FluentBitJson;
use fluent_ecs::time::Timestamp;

fn record(text: &str) -> FluentBitJson {
    let mut json = FluentBitJson::new();
    json.other = serde_json::from_str(text).unwrap();
    json
}

fn texts(items: &[&str]) -> Vec<String> {
    items.iter().map(|s| s.to_string()).collect()
}

fn pairs(line: &str) -> Option<Vec<(String, String)>> {
    let s: Vec<char> = line.chars().collect();
    let cut = |a: usize, b: usize| s[a..b].iter().collect::<String>();
    parse_event_line(&s).map(|found| {
        found
            .iter()
            .map(|kv| (cut(kv.key.start, kv.key.end), cut(kv.value.start, kv.value.end)))
            .collect()
    })
}

fn pair(key: &str, value: &str) -> (String, String) {
    (key.to_string(), value.to_string())
}

#[test]
fn keycloak_severity_table() {
    assert_eq!(convert_severity("TRACE"), Some(50));
    assert_eq!(convert_severity("DEBUG"), Some(100));
    assert_eq!(convert_severity("INFO"), Some(200));
    assert_eq!(convert_severity("WARN"), Some(300));
    assert_eq!(convert_severity("ERROR"), Some(400));
    assert_eq!(convert_severity("FATAL"), Some(500));
    assert_eq!(convert_severity("info"), None);
    assert_eq!(convert_severity("WARNING"), None);
    assert_eq!(convert_severity(""), None);
}

#[test]
fn login_error_event() {
    let mut json = record(r#"{"loggerName": "org.keycloak.events", "level": "WARN"}"#);
    json.message = Some(r#"type="LOGIN_ERROR", ipAddress="1.2.3.4""#.to_string());
    convert_keycloak_logs(&mut json);
    let event = json.event();
    assert!(event.category.contains(&"authentication".to_string()));
    assert_eq!(event.category, texts(&["iam", "authentication"]));
    assert!(event.type_val.contains(&"denied".to_string()));
    assert_eq!(event.type_val, texts(&["denied"]));
    assert_eq!(event.outcome.as_deref(), Some("success"));
    assert_eq!(event.action.as_deref(), Some("LOGIN_ERROR"));
    assert_eq!(event.module.as_deref(), Some("keycloak"));
    assert_eq!(event.severity, Some(300));
    assert_eq!(event.kind, None);
    assert_eq!(json.source().ip.as_deref(), Some("1.2.3.4"));
    assert_eq!(json.log().logger.as_deref(), Some("org.keycloak.events"));
    assert_eq!(json.service().type_val.as_deref(), Some("keycloak"));
    assert_eq!(json.message.as_deref(), Some(r#"type="LOGIN_ERROR", ipAddress="1.2.3.4""#));
    assert!(json.other.is_empty());
}

#[test]
fn login_event_with_user() {
    let mut json = record(r#"{"loggerName": "org.keycloak.events"}"#);
    json.message = Some(
        r#"type="LOGIN", realmId="master", userId="f3a", username="alice", error="none", ipAddress="10.1.1.1""#
            .to_string(),
    );
    convert_keycloak_logs(&mut json);
    assert_eq!(json.event().category, texts(&["iam", "authentication"]));
    assert_eq!(json.event().type_val, texts(&["allowed"]));
    assert_eq!(json.event().outcome.as_deref(), Some("success"));
    assert_eq!(json.user().id.as_deref(), Some("f3a"));
    assert_eq!(json.user().name.as_deref(), Some("alice"));
    assert_eq!(json.error().message.as_deref(), Some("none"));
    assert_eq!(json.source().ip.as_deref(), Some("10.1.1.1"));
    assert!(json.misc.is_empty());
}

#[test]
fn code_to_token_and_other_types() {
    let mut json = FluentBitJson::new();
    json.message = Some(r#"type="CODE_TO_TOKEN""#.to_string());
    parse_event_log(&mut json);
    assert_eq!(json.event().category, texts(&["authentication"]));
    assert!(json.event().type_val.is_empty());
    assert_eq!(json.event().outcome, None);
    assert_eq!(json.event().action.as_deref(), Some("CODE_TO_TOKEN"));

    let mut json = FluentBitJson::new();
    json.message = Some(r#"type="LOGOUT""#.to_string());
    parse_event_log(&mut json);
    assert!(json.event().category.is_empty());
    assert_eq!(json.event().action.as_deref(), Some("LOGOUT"));
}

#[test]
fn user_id_null_is_not_recorded() {
    let mut json = FluentBitJson::new();
    json.message = Some(r#"userId="null""#.to_string());
    parse_event_log(&mut json);
    assert!(json.user.is_none());
    parse_event_key_value_par(&mut json, "userId", "NULL".to_string());
    assert_eq!(json.user().id.as_deref(), Some("NULL"));
}

#[test]
fn unknown_event_keys_are_dropped() {
    let mut json = FluentBitJson::new();
    parse_event_key_value_par(&mut json, "realmId", "master".to_string());
    parse_event_key_value_par(&mut json, "Type", "LOGIN".to_string());
    assert!(json.event.is_none());
    assert!(json.misc.is_empty());
    assert!(json.other.is_empty());
}

#[test]
fn other_loggers_do_not_read_the_message() {
    let mut json = record(r#"{"loggerName": "org.keycloak.services"}"#);
    json.message = Some(r#"type="LOGIN""#.to_string());
    convert_keycloak_logs(&mut json);
    assert_eq!(json.event().category, texts(&["iam"]));
    assert_eq!(json.event().action, None);
    assert_eq!(json.event().kind, None);
}

#[test]
fn event_line_that_does_not_parse_marks_the_record() {
    let mut json = record(r#"{"loggerName": "org.keycloak.events", "level": "INFO"}"#);
    json.message = Some("type=LOGIN".to_string());
    convert_keycloak_logs(&mut json);
    assert_eq!(json.message.as_deref(), Some("type=LOGIN"));
    let event = json.event();
    assert_eq!(event.kind.as_deref(), Some("pipeline_error"));
    assert_eq!(event.severity, Some(300));
    assert_eq!(event.outcome.as_deref(), Some("failure"));
    assert_eq!(event.category, texts(&["iam"]));
    assert_eq!(event.action, None);
}

#[test]
fn event_record_without_message_is_left_alone() {
    let mut json = record(r#"{"loggerName": "org.keycloak.events"}"#);
    convert_keycloak_logs(&mut json);
    assert_eq!(json.event().kind, None);
    assert_eq!(json.message, None);
}

#[test]
fn fields_of_a_keycloak_record() {
    let mut json = record(
        r#"{"timestamp": "2023-11-16T13:27:38.555+01:00", "sequence": 4711, "loggerName": "org.x",
            "loggerClassName": "org.jboss.logging.Logger", "level": "ERROR", "threadName": "main",
            "threadId": 1, "mdc": {}, "ndc": "", "hostName": "kc-0", "processName": "QuarkusEntryPoint",
            "processId": 12, "else": [1]}"#,
    );
    convert_keycloak_logs(&mut json);
    assert_eq!(
        json.timestamp,
        Some(Timestamp { secs: 1700137658, nanos: 555_000_000, offset: 3600 })
    );
    assert_eq!(json.event().sequence, Some(4711));
    assert_eq!(json.event().severity, Some(400));
    assert_eq!(json.log().level.as_deref(), Some("ERROR"));
    assert_eq!(json.log().logger.as_deref(), Some("org.x"));
    assert_eq!(json.process().name.as_deref(), Some("QuarkusEntryPoint"));
    assert_eq!(json.process().pid, Some(12));
    assert_eq!(json.process().thread().name.as_deref(), Some("main"));
    assert_eq!(json.process().thread().id, Some(1));
    assert_eq!(json.host().hostname.as_deref(), Some("kc-0"));
    assert_eq!(json.misc, texts(&["mdc:{}", "ndc:", "loggerClassName:org.jboss.logging.Logger"]));
    assert_eq!(json.other.len(), 1);
    assert!(json.other.contains_key("else"));
}

#[test]
fn values_of_the_wrong_kind_go_to_misc() {
    let mut json = record(
        r#"{"timestamp": "later", "sequence": "x", "loggerName": 5, "processName": false,
            "processId": 4294967296, "threadName": null, "threadId": "t7", "hostName": ["a"]}"#,
    );
    convert_keycloak_logs(&mut json);
    assert_eq!(
        json.misc,
        texts(&[
            "ts:later",
            "sequence:\"x\"",
            "logger:5",
            "processName:false",
            "processId:4294967296",
            "threadName:null",
            "threadId:\"t7\"",
            "hostName:[\"a\"]",
        ])
    );
    assert!(json.other.is_empty());
    assert!(json.process.is_none());
    assert!(json.host.is_none());
    assert_eq!(json.event().sequence, None);
    assert_eq!(json.log().logger, None);
}

#[test]
fn ids_that_are_no_unsigned_numbers() {
    let mut json = record(r#"{"processId": -3, "threadId": 4294967295, "sequence": -1}"#);
    json.event().sequence = Some(9);
    convert_keycloak_logs(&mut json);
    assert_eq!(json.misc, texts(&["processId:-3"]));
    assert_eq!(json.process().pid, None);
    assert_eq!(json.process().thread().id, Some(4294967295));
    assert_eq!(json.event().sequence, None);
}

#[test]
fn process_id_that_is_no_number_has_its_own_label() {
    let mut json = record(r#"{"processId": "12"}"#);
    convert_keycloak_logs(&mut json);
    assert_eq!(json.misc, texts(&["process_id:\"12\""]));
}

#[test]
fn unmask_undoes_the_escapes() {
    assert_eq!(unmask(r#"plain"#), "plain");
    assert_eq!(unmask(r#"a \"quoted\" word"#), "a \"quoted\" word");
    assert_eq!(unmask(r#"back\\slash"#), "back\\slash");
    assert_eq!(unmask(r#"a\nb"#), "a\nb");
    assert_eq!(unmask(r#"a\rb"#), "a\rb");
    assert_eq!(unmask(r#"a\tb"#), "a\tb");
    assert_eq!(unmask(r#"line\nbreak\ttab\r"#), "line\nbreak\ttab\r");
    assert_eq!(unmask(""), "");
}

#[test]
fn unmask_reads_from_left_to_right() {
    // an escaped backslash does not escape what follows it
    assert_eq!(unmask(r#"\\n"#), "\\n");
    assert_eq!(unmask(r#"\\\n"#), "\\\n");
    assert_eq!(unmask(r#"\\\\"#), "\\\\");
    assert_eq!(unmask(r#"\\""#), "\\\"");
    assert_eq!(unmask(r#"\"\n"#), "\"\n");
}

#[test]
fn unmask_leaves_everything_else_as_it_is() {
    assert_eq!(unmask(r#"a\xb"#), "a\\xb");
    assert_eq!(unmask(r#"end\"#), "end\\");
    assert_eq!(unmask("a\\\nb"), "a\\\nb");
    assert_eq!(unmask("real\nline\tfeed"), "real\nline\tfeed");
}

#[test]
fn escapes_in_event_values_are_undone() {
    let mut json = FluentBitJson::new();
    json.message = Some(r#"error="line one\nline \"two\"", username="a\\b""#.to_string());
    parse_event_log(&mut json);
    assert_eq!(json.error().message.as_deref(), Some("line one\nline \"two\""));
    assert_eq!(json.user().name.as_deref(), Some("a\\b"));
}

#[test]
fn grammar_reads_pairs() {
    assert_eq!(pairs(r#"a="1""#), Some(vec![pair("a", "1")]));
    assert_eq!(pairs(r#"a="1",b="2""#), Some(vec![pair("a", "1"), pair("b", "2")]));
    assert_eq!(
        pairs(r#"type="LOGIN_ERROR", ipAddress="1.2.3.4""#),
        Some(vec![pair("type", "LOGIN_ERROR"), pair("ipAddress", "1.2.3.4")])
    );
    assert_eq!(pairs(r#"a="""#), Some(vec![pair("a", "")]));
    assert_eq!(pairs(r#"a_b-C="x, y = z""#), Some(vec![pair("a_b-C", "x, y = z")]));
}

#[test]
fn grammar_skips_whitespace_between_tokens() {
    assert_eq!(
        pairs(" \t a = \"1\" ,\r\n b\t=\t\"2\" \n"),
        Some(vec![pair("a ", "1"), pair("b\t", "2")])
    );
    assert_eq!(pairs("ab = \"1\""), Some(vec![pair("ab", "1")]));
    assert_eq!(pairs("a b=\"1\""), Some(vec![pair("a b", "1")]));
    assert_eq!(pairs("ab c  d=\"1\""), Some(vec![pair("ab c  d", "1")]));
    assert_eq!(pairs("a=\" 1 \""), Some(vec![pair("a", " 1 ")]));
}

#[test]
fn grammar_keeps_escapes_in_values() {
    assert_eq!(pairs(r#"a="x\"y""#), Some(vec![pair("a", r#"x\"y"#)]));
    assert_eq!(pairs(r#"a="x\\""#), Some(vec![pair("a", r#"x\\"#)]));
    assert_eq!(pairs(r#"a="\n\r\t""#), Some(vec![pair("a", r#"\n\r\t"#)]));
    assert_eq!(pairs("a=\"line\nbreak\""), Some(vec![pair("a", "line\nbreak")]));
}

#[test]
fn grammar_rejects_what_is_no_event_line() {
    for line in [
        "",
        "   ",
        "a",
        "a=",
        "a=1",
        "a=\"1",
        "a=\"1\",",
        "a=\"1\" b=\"2\"",
        ",a=\"1\"",
        "a=\"x\\y\"",
        "a=\"x\\\"",
        "a.b=\"1\"",
        "1=\"1\"",
        "a=\"1\";",
        "=\"1\"",
    ] {
        assert_eq!(pairs(line), None, "{:?}", line);
    }
}

#[test]
fn keycloak_category_is_added_to_those_of_the_record() {
    let mut json = record(r#"{"loggerName": "org.keycloak.events"}"#);
    json.event().category.push("old".to_string());
    json.message = Some(r#"type="LOGIN""#.to_string());
    convert_keycloak_logs(&mut json);
    assert_eq!(json.event().category, texts(&["old", "iam", "authentication"]));
    assert_eq!(json.event().type_val, texts(&["allowed"]));
}
