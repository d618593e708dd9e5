use fluent_ecs::json::val_to_string;
use fluent_ecs::model::ecs::{Container, Event, Log, Orchestrator};
use fluent_ecs::model::{ErrorOrString, EventOrString, FluentBitJson, LogOrString};
use serde_json::Value;

fn value(text: &str) -> Value {
    serde_json::from_str(text).unwrap()
}

#[test]
fn new_record_is_empty() {
    let json = FluentBitJson::new();
    assert!(json.kubernetes.is_none());
    assert!(json.timestamp.is_none());
    assert!(json.message.is_none());
    assert!(json.event.is_none());
    assert!(json.misc.is_empty());
    assert!(json.other.is_empty());
}

#[test]
fn new_sub_objects_are_empty() {
    let event = Event::new();
    assert!(event.kind.is_none());
    assert!(event.category.is_empty());
    assert!(event.type_val.is_empty());
    assert!(event.severity.is_none());
    assert!(event.other.is_null());
    let container = Container::new();
    assert!(container.id.is_none());
    assert!(container.image.is_none());
    assert!(container.other.is_null());
}

#[test]
fn accessors_create_on_first_use_and_keep_what_is_there() {
    let mut json = FluentBitJson::new();
    assert!(json.host.is_none());
    json.host().hostname = Some("node-1".to_string());
    assert_eq!(json.host().hostname.as_deref(), Some("node-1"));
    json.container().image().hash().all.push("sha256:abc".to_string());
    json.container().image().name = Some("nginx".to_string());
    let image = json.container.as_ref().unwrap().image.as_ref().unwrap();
    assert_eq!(image.name.as_deref(), Some("nginx"));
    assert_eq!(image.hash.as_ref().unwrap().all, vec!["sha256:abc".to_string()]);
}

#[test]
fn nested_accessors_create_each_level() {
    let mut log = Log::new();
    log.origin().file().line = Some(42);
    assert_eq!(log.origin.as_ref().unwrap().file.as_ref().unwrap().line, Some(42));
    let mut orchestrator = Orchestrator::new();
    orchestrator.resource().parent().type_val = Some("StatefulSet".to_string());
    let resource = orchestrator.resource.as_ref().unwrap();
    assert_eq!(resource.parent.as_ref().unwrap().type_val.as_deref(), Some("StatefulSet"));
}

#[test]
fn typed_accessor_replaces_a_plain_text() {
    let mut json = FluentBitJson::new();
    json.event = Some(EventOrString::String("sessionUp".to_string()));
    json.error = Some(ErrorOrString::String("boom".to_string()));
    json.log = Some(LogOrString::String("a line".to_string()));
    json.event().kind = Some("event".to_string());
    assert!(matches!(json.event, Some(EventOrString::Event(_))));
    assert!(json.error().message.is_none());
    assert!(matches!(json.error, Some(ErrorOrString::Error(_))));
    assert!(json.log().level.is_none());
    assert!(matches!(json.log, Some(LogOrString::Log(_))));
    // the texts that were replaced are kept, each once
    json.event().severity = Some(1);
    json.log().logger = None;
    assert_eq!(
        json.misc,
        vec!["event:sessionUp".to_string(), "error:boom".to_string(), "log:a line".to_string()]
    );
}

#[test]
fn typed_accessor_keeps_a_typed_value() {
    let mut json = FluentBitJson::new();
    json.event().severity = Some(400);
    json.event().kind = Some("alert".to_string());
    assert_eq!(json.event().severity, Some(400));
    assert_eq!(json.event().kind.as_deref(), Some("alert"));
}

#[test]
fn move_key_to_misc_keeps_the_value() {
    let mut json = FluentBitJson::new();
    json.other.insert("pool".to_string(), Value::String("default".to_string()));
    json.other.insert("stays".to_string(), Value::Bool(true));
    json.move_key_to_misc("pool");
    assert_eq!(json.misc, vec!["pool:default".to_string()]);
    assert!(!json.other.contains_key("pool"));
    assert_eq!(json.other.get("stays"), Some(&Value::Bool(true)));
}

#[test]
fn move_key_to_misc_of_a_missing_key_changes_nothing() {
    let mut json = FluentBitJson::new();
    json.other.insert("stays".to_string(), Value::Bool(true));
    json.misc.push("a:b".to_string());
    json.move_key_to_misc("pool");
    assert_eq!(json.misc, vec!["a:b".to_string()]);
    assert_eq!(json.other.len(), 1);
}

#[test]
fn move_keys_to_misc_goes_in_order() {
    let mut json = FluentBitJson::new();
    json.other.insert("b".to_string(), value("2"));
    json.other.insert("a".to_string(), value("[1, \"x\"]"));
    json.other.insert("c".to_string(), value("null"));
    json.move_keys_to_misc(&vec!["b", "missing", "a"]);
    assert_eq!(json.misc, vec!["b:2".to_string(), "a:1,x".to_string()]);
    assert_eq!(json.other.len(), 1);
    assert!(json.other.contains_key("c"));
}

#[test]
fn note_appends_label_and_text() {
    let mut json = FluentBitJson::new();
    json.note("ts", "not a date");
    json.note("", "");
    assert_eq!(json.misc, vec!["ts:not a date".to_string(), ":".to_string()]);
}

#[test]
fn take_string_takes_only_texts() {
    let mut json = FluentBitJson::new();
    json.other.insert("level".to_string(), value("\"info\""));
    json.other.insert("count".to_string(), value("3"));
    assert_eq!(json.take_string("level"), Some("info".to_string()));
    assert!(json.misc.is_empty());
    assert_eq!(json.take_string("count"), None);
    assert_eq!(json.take_string("absent"), None);
    assert!(json.other.is_empty());
    assert_eq!(json.misc, vec!["count:3".to_string()]);
    json.other.insert("n".to_string(), value("[1, 2]"));
    assert_eq!(json.take_string_as("n", "numbers"), None);
    assert_eq!(json.misc, vec!["count:3".to_string(), "numbers:1,2".to_string()]);
}

#[test]
fn take_value_returns_what_was_there() {
    let mut json = FluentBitJson::new();
    json.other.insert("count".to_string(), value("3"));
    assert_eq!(json.take_value("count"), Some(value("3")));
    assert_eq!(json.take_value("count"), None);
}

#[test]
fn val_to_string_writes_a_string_bare() {
    assert_eq!(val_to_string(&value("\"a \\\"b\\\"\"")), "a \"b\"");
    assert_eq!(val_to_string(&value("\"\"")), "");
}

#[test]
fn val_to_string_joins_an_array_with_commas() {
    assert_eq!(val_to_string(&value("[\"a\", 1, true, null]")), "a,1,true,null");
    assert_eq!(val_to_string(&value("[]")), "");
    assert_eq!(val_to_string(&value("[\"only\"]")), "only");
    assert_eq!(val_to_string(&value("[[\"a\", \"b\"], [\"c\"], []]")), "a,b,c,");
}

#[test]
fn val_to_string_writes_other_values_as_json() {
    assert_eq!(val_to_string(&value("12")), "12");
    assert_eq!(val_to_string(&value("-7")), "-7");
    assert_eq!(val_to_string(&value("false")), "false");
    assert_eq!(val_to_string(&value("null")), "null");
    assert_eq!(val_to_string(&value("{\"k\": \"v\"}")), "{\"k\":\"v\"}");
    assert_eq!(val_to_string(&value("[{\"k\": \"v\"}]")), "{\"k\":\"v\"}");
}

#[test]
fn set_message_keeps_the_message_before() {
    let mut json = FluentBitJson::new();
    json.set_message("first".to_string());
    assert!(json.misc.is_empty());
    json.set_message("second".to_string());
    assert_eq!(json.message.as_deref(), Some("second"));
    assert_eq!(json.misc, vec!["message:first".to_string()]);
}
