use fluent_ecs::metallb::{
    convert_action, convert_category, convert_metallb_logs, convert_outcome, convert_severity,
    convert_type,
};
use fluent_ecs::model::{ErrorOrString, EventOrString, FluentBitJson};
use fluent_ecs::time::Timestamp;

fn record(text: &str) -> FluentBitJson {
    let mut json = FluentBitJson::new();
    json.other = serde_json::from_str(text).unwrap();
    json
}

fn texts(items: &[&str]) -> Vec<String> {
    items.iter().map(|s| s.to_string()).collect()
}

#[test]
fn metallb_severity_table() {
    assert_eq!(convert_severity("debug"), Some(100));
    assert_eq!(convert_severity("info"), Some(200));
    assert_eq!(convert_severity("warn"), Some(300));
    assert_eq!(convert_severity("error"), Some(400));
    assert_eq!(convert_severity("Error"), None);
    assert_eq!(convert_severity("trace"), None);
}

#[test]
fn categories_of_operations() {
    assert_eq!(convert_category("sessionUp"), texts(&["network", "session"]));
    assert_eq!(convert_category("sessionDown"), texts(&["network", "session"]));
    assert_eq!(convert_category("serviceAnnounced"), texts(&["network"]));
    assert_eq!(convert_category(""), texts(&["network"]));
}

#[test]
fn types_of_operations() {
    assert_eq!(convert_type("serviceAnnounced"), texts(&["start"]));
    assert_eq!(convert_type("sessionUp"), texts(&["start"]));
    assert_eq!(convert_type("serviceWithdrawn"), texts(&["end"]));
    assert_eq!(convert_type("sessionDown"), texts(&["end"]));
    assert_eq!(convert_type("createARPResponder"), texts(&["creation"]));
    assert_eq!(convert_type("createNDPResponder"), texts(&["creation"]));
    assert_eq!(convert_type("peerAdded"), texts(&[]));
}

#[test]
fn outcome_depends_on_operation_and_level() {
    let info = Some("info".to_string());
    let error = Some("error".to_string());
    let warn = Some("warn".to_string());
    for op in [
        "serviceAnnounced", "serviceWithdrawn", "serviceDeleted", "peerAdded", "peerRemoved",
        "sessionUp", "createARPResponder", "createNDPResponder",
    ] {
        assert_eq!(convert_outcome(op, &info), Some("success".to_string()), "{}", op);
        assert_eq!(convert_outcome(op, &error), None, "{}", op);
        assert_eq!(convert_outcome(op, &None), None, "{}", op);
    }
    for op in [
        "updateServiceStatus", "connect", "sendUpdate", "getInterfaces", "getAddresses",
        "reload-validate", "reload", "listenAndServe",
    ] {
        assert_eq!(convert_outcome(op, &error), Some("failure".to_string()), "{}", op);
        assert_eq!(convert_outcome(op, &info), None, "{}", op);
        assert_eq!(convert_outcome(op, &warn), None, "{}", op);
    }
    assert_eq!(convert_outcome("sessionDown", &info), None);
    assert_eq!(convert_outcome("sessionDown", &error), None);
}

#[test]
fn action_is_the_operation_but_for_one() {
    assert_eq!(convert_action("serviceAnnounced"), Some("serviceAnnounced".to_string()));
    assert_eq!(convert_action(""), Some("".to_string()));
    assert_eq!(convert_action("force service reload"), None);
}

#[test]
fn service_announced_by_the_speaker() {
    let mut json = record(
        r#"{"caller": "main.go:409", "event": "ignored here", "ips": ["10.0.0.1"], "level": "info",
            "msg": "service has IP, announcing", "pool": "default", "protocol": "layer2",
            "ts": "2023-11-16T12:00:00Z", "op": "should stay"}"#,
    );
    json.other.remove("event");
    json.event = Some(EventOrString::String("serviceAnnounced".to_string()));
    convert_metallb_logs(&mut json);
    assert_eq!(json.message.as_deref(), Some("service has IP, announcing"));
    assert_eq!(json.timestamp, Some(Timestamp { secs: 1700136000, nanos: 0, offset: 0 }));
    assert_eq!(json.service().type_val.as_deref(), Some("metallb"));
    let event = json.event();
    assert_eq!(event.kind.as_deref(), Some("event"));
    assert_eq!(event.module.as_deref(), Some("metallb"));
    assert_eq!(event.category, texts(&["network"]));
    assert_eq!(event.type_val, texts(&["start"]));
    assert_eq!(event.outcome.as_deref(), Some("success"));
    assert_eq!(event.action.as_deref(), Some("serviceAnnounced"));
    assert_eq!(event.severity, Some(200));
    assert_eq!(json.network().protocol.as_deref(), Some("layer2"));
    assert_eq!(json.log().level.as_deref(), Some("info"));
    assert_eq!(json.log().origin().file().name.as_deref(), Some("main.go"));
    assert_eq!(json.log().origin().file().line, Some(409));
    assert_eq!(json.misc, texts(&["ips:10.0.0.1", "pool:default"]));
    assert_eq!(json.other.len(), 1);
    assert!(json.other.contains_key("op"));
    assert!(matches!(json.event, Some(EventOrString::Event(_))));
}

#[test]
fn operation_from_op_when_event_is_no_text() {
    let mut json = record(r#"{"op": "sessionDown", "level": "error"}"#);
    convert_metallb_logs(&mut json);
    assert!(json.other.is_empty());
    assert_eq!(json.message.as_deref(), Some("sessionDown"));
    let event = json.event();
    assert_eq!(event.category, texts(&["network", "session"]));
    assert_eq!(event.type_val, texts(&["end"]));
    assert_eq!(event.outcome, None);
    assert_eq!(event.action.as_deref(), Some("sessionDown"));
    assert_eq!(event.severity, Some(400));
}

#[test]
fn without_an_operation_the_category_is_network() {
    let mut json = record(r#"{"msg": "hello"}"#);
    convert_metallb_logs(&mut json);
    assert_eq!(json.event().category, texts(&["network"]));
    assert!(json.event().type_val.is_empty());
}

#[test]
fn categories_and_types_are_added_to_those_of_the_record() {
    let mut json = record(r#"{"op": "sessionUp"}"#);
    json.event().category.push("old".to_string());
    json.event().type_val.push("info".to_string());
    convert_metallb_logs(&mut json);
    assert_eq!(json.event().category, texts(&["old", "network", "session"]));
    assert_eq!(json.event().type_val, texts(&["info", "start"]));

    let mut json = record(r#"{"msg": "hello"}"#);
    json.event().action = Some("kept".to_string());
    json.event().category.push("old".to_string());
    convert_metallb_logs(&mut json);
    assert_eq!(json.event().category, texts(&["old", "network"]));
    assert_eq!(json.event().action.as_deref(), Some("kept"));
    assert_eq!(json.event().severity, None);
}

#[test]
fn error_text_wins_over_msg() {
    let mut json = record(r#"{"msg": "failed to reload", "level": "error"}"#);
    json.error = Some(ErrorOrString::String("connection refused".to_string()));
    convert_metallb_logs(&mut json);
    assert_eq!(json.message.as_deref(), Some("connection refused"));
    assert_eq!(json.error().message.as_deref(), Some("connection refused"));
    assert_eq!(json.misc, texts(&["msg:failed to reload"]));
}

#[test]
fn error_text_without_msg() {
    let mut json = record(r#"{}"#);
    json.error = Some(ErrorOrString::String("connection refused".to_string()));
    convert_metallb_logs(&mut json);
    assert_eq!(json.message.as_deref(), Some("connection refused"));
    assert_eq!(json.error().message.as_deref(), Some("connection refused"));
    assert!(json.misc.is_empty());
}

#[test]
fn action_stands_in_as_message_last_of_all() {
    let mut json = record(r#"{"action": "setBalancer", "msg": 5}"#);
    convert_metallb_logs(&mut json);
    assert_eq!(json.message.as_deref(), Some("\"setBalancer\""));
    assert!(json.other.is_empty());
    assert_eq!(json.misc, texts(&["msg:5"]));
    let mut json = record(r#"{"action": "setBalancer", "op": "reload"}"#);
    convert_metallb_logs(&mut json);
    assert_eq!(json.message.as_deref(), Some("reload"));
    assert_eq!(json.misc, texts(&["action:setBalancer"]));
}

#[test]
fn action_beside_a_message_goes_to_misc() {
    let mut json = record(r#"{"msg": "m", "action": "a"}"#);
    convert_metallb_logs(&mut json);
    assert_eq!(json.message.as_deref(), Some("m"));
    assert_eq!(json.misc, texts(&["action:a"]));
    assert!(json.other.is_empty());

    let mut json = record(r#"{"msg": "m", "action": ["x", 1]}"#);
    json.error = Some(ErrorOrString::String("boom".to_string()));
    convert_metallb_logs(&mut json);
    assert_eq!(json.message.as_deref(), Some("boom"));
    assert_eq!(json.misc, texts(&["msg:m", "action:x,1"]));
}

#[test]
fn metallb_values_that_are_no_texts_go_to_misc() {
    let mut json = record(
        r#"{"op": 1, "level": 2, "ts": 3, "msg": 4, "caller": 5, "logger": 6, "protocol": 7}"#,
    );
    convert_metallb_logs(&mut json);
    assert_eq!(
        json.misc,
        texts(&["op:1", "level:2", "ts:3", "msg:4", "caller:5", "logger:6", "protocol:7"])
    );
    assert!(json.other.is_empty());
    assert_eq!(json.message, None);
    assert!(json.network.is_none());
}

#[test]
fn metallb_keys_without_a_field_go_to_misc_in_order() {
    let mut json = record(
        r#"{"joined": ["a"], "expected": ["a", "b"], "reason": "r", "localIfs": "eth0",
            "service": "default/web", "IPAdvertisement": "x", "gvk": "g", "name": "n",
            "controller": "c", "pool": "p", "interface": "eth1", "ips": ["1", "2"],
            "logger": 7, "extra": 1}"#,
    );
    convert_metallb_logs(&mut json);
    assert_eq!(
        json.misc,
        texts(&[
            "logger:7", "ips:1,2", "interface:eth1", "pool:p", "controller:c", "name:n", "gvk:g",
            "IPAdvertisement:x", "service:default/web", "localIfs:eth0", "reason:r",
            "expected:a,b", "joined:a",
        ])
    );
    assert_eq!(json.other.len(), 1);
    assert!(json.other.contains_key("extra"));
    assert_eq!(json.log().logger, None);
}

#[test]
fn an_operation_that_is_no_action_goes_to_misc() {
    let mut json = record(r#"{"op": "force service reload", "msg": "reloading"}"#);
    convert_metallb_logs(&mut json);
    assert_eq!(json.message.as_deref(), Some("reloading"));
    assert_eq!(json.event().action, None);
    assert_eq!(json.event().category, texts(&["network"]));
    assert_eq!(json.misc, texts(&["op:force service reload"]));
}
