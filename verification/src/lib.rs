//! Rewrites one structured log record into a canonical observability schema.
//!
//! A record arrives as the log collector left it: a few typed fields, the
//! Kubernetes metadata of the pod that wrote it, and any number of keys that no
//! field claims. `convert_record` runs the converter of the application that
//! wrote the record, if it is one of the known ones, then writes the Kubernetes
//! metadata to the schema, then settles the defaults that every record gets.
//!
//! Reading a record from JSON text and writing it back are left to the caller.

pub mod etcd;
pub mod extract;
pub mod grammar;
pub mod json;
pub mod keycloak;
pub mod kubernetes;
pub mod kubernetes_dashboard;
pub mod laws;
pub mod metallb;
pub mod model;
pub mod postfix;
pub mod text;
pub mod time;

use crate::etcd::{convert_etcd_logs, etcd_converted};
use crate::json::{
    json_of_string, json_text, object_entries, object_get, string_at, string_value, value_as_str,
    value_to_text, JsonObject,
};
use crate::kubernetes::{convert_kubernetes_metadata, normalized};
use crate::kubernetes_dashboard::{
    convert_kubernetes_dashboard_metrics_scraper, dashboard_converted,
};
use crate::metallb::{convert_metallb_logs, metallb_converted};
use crate::model::ecs::EventView;
use crate::model::fluentbit::KubernetesView;
use crate::model::{key_texts, FluentBitJson, FluentBitJsonView, LogOrString};
use crate::postfix::{convert_postfix_logs, postfix_converted};
use crate::text::{labelled, str_eq};
use crate::time::Timestamp;
use vstd::prelude::*;
use vstd::string::StringExecFns;

verus! {

/// The applications whose records have a converter of their own.
#[derive(Clone, Copy, Debug, PartialEq, Eq, Structural)]
pub enum Application {
    Metallb,
    Etcd,
    Postfix,
    KubernetesDashboardMetricsScraper,
}

/// The application that goes by the name `name`, if it is a known one.
pub open spec fn known_application(name: Seq<char>) -> Option<Application> {
    if name == "metallb"@ {
        Some(Application::Metallb)
    } else if name == "etcd"@ {
        Some(Application::Etcd)
    } else if name == "postfix"@ {
        Some(Application::Postfix)
    } else if name == "kubernetes-dashboard-metrics-scraper"@ {
        Some(Application::KubernetesDashboardMetricsScraper)
    } else {
        None
    }
}

/// The known application that goes by the name `name`.
pub fn application_named(name: &str) -> (r: Option<Application>)
    ensures
        r == known_application(name@),
{
    if str_eq(name, "metallb") {
        Some(Application::Metallb)
    } else if str_eq(name, "etcd") {
        Some(Application::Etcd)
    } else if str_eq(name, "postfix") {
        Some(Application::Postfix)
    } else if str_eq(name, "kubernetes-dashboard-metrics-scraper") {
        Some(Application::KubernetesDashboardMetricsScraper)
    } else {
        None
    }
}

/// The known application that the text under `key` names, if any.
pub open spec fn application_at(m: JsonObject, key: Seq<char>) -> Option<Application> {
    match string_at(object_entries(m), key) {
        Some(name) => known_application(name),
        None => None,
    }
}

/// The application that the metadata selects: the first of the parser
/// annotation, the label `app.kubernetes.io/name` and the label `component` that
/// names a known one.
pub open spec fn selected_application(k: KubernetesView) -> Option<Application> {
    match application_at(k.annotations, "fluent-ecs.bieniek-it.de/parser"@) {
        Some(app) => Some(app),
        None => match application_at(k.labels, "app.kubernetes.io/name"@) {
            Some(app) => Some(app),
            None => application_at(k.labels, "component"@),
        },
    }
}

/// The application whose converter runs on a record. A record without metadata
/// selects none.
pub open spec fn application_of(d: FluentBitJsonView) -> Option<Application> {
    match d.kubernetes {
        Some(k) => selected_application(k),
        None => None,
    }
}

fn named_at(m: &JsonObject, key: &str) -> (r: Option<Application>)
    ensures
        r == application_at(*m, key@),
{
    match object_get(m, key) {
        Some(v) => match value_as_str(v) {
            Some(name) => application_named(name),
            None => None,
        },
        None => None,
    }
}

/// Selects the application whose converter runs on a record.
pub fn select_application(json: &FluentBitJson) -> (r: Option<Application>)
    ensures
        r == application_of(json@),
{
    match &json.kubernetes {
        Some(k) => {
            let r = named_at(&k.annotations, "fluent-ecs.bieniek-it.de/parser");
            if r.is_some() {
                return r;
            }
            let r = named_at(&k.labels, "app.kubernetes.io/name");
            if r.is_some() {
                return r;
            }
            named_at(&k.labels, "component")
        },
        None => None,
    }
}

/// What the converter of `app` makes of a record; without an application the
/// record stays as it is.
pub open spec fn app_converted(
    d: FluentBitJsonView,
    app: Option<Application>,
    arrival: Timestamp,
    took: Option<u64>,
) -> FluentBitJsonView {
    match app {
        Some(Application::Metallb) => metallb_converted(d),
        Some(Application::Etcd) => etcd_converted(d, took),
        Some(Application::Postfix) => postfix_converted(d, arrival),
        Some(Application::KubernetesDashboardMetricsScraper) => dashboard_converted(d),
        None => d,
    }
}

/// Runs the converter of the application named `app`, and tells whether there
/// is one.
pub fn try_app_specific_conversion(
    app: &str,
    json: &mut FluentBitJson,
    event_date: &Timestamp,
    took: Option<u64>,
) -> (r: bool)
    ensures
        r == known_application(app@) is Some,
        final(json)@ == app_converted(old(json)@, known_application(app@), *event_date, took),
{
    match application_named(app) {
        Some(Application::Metallb) => {
            convert_metallb_logs(json);
            true
        },
        Some(Application::Etcd) => {
            convert_etcd_logs(json, took);
            true
        },
        Some(Application::Postfix) => {
            convert_postfix_logs(json, event_date);
            true
        },
        Some(Application::KubernetesDashboardMetricsScraper) => {
            convert_kubernetes_dashboard_metrics_scraper(json);
            true
        },
        None => false,
    }
}

/// Runs the converter of the application that the record's metadata selects.
pub fn do_app_specific_conversion(
    json: &mut FluentBitJson,
    event_date: &Timestamp,
    took: Option<u64>,
)
    ensures
        final(json)@ == app_converted(old(json)@, application_of(old(json)@), *event_date, took),
{
    match select_application(json) {
        Some(Application::Metallb) => {
            convert_metallb_logs(json);
        },
        Some(Application::Etcd) => {
            convert_etcd_logs(json, took);
        },
        Some(Application::Postfix) => {
            convert_postfix_logs(json, event_date);
        },
        Some(Application::KubernetesDashboardMetricsScraper) => {
            convert_kubernetes_dashboard_metrics_scraper(json);
        },
        None => {},
    }
}

/// The event with the defaults that every record gets: the kind `event`, and
/// this library as the module, with the record's stream as the dataset.
pub open spec fn event_defaults(e: EventView, stream: Option<Seq<char>>) -> EventView {
    let e = match e.kind {
        Some(_) => e,
        None => EventView { kind: Some("event"@), ..e },
    };
    match e.module {
        Some(_) => e,
        None => EventView {
            module: Some("fluent-ecs"@),
            dataset: match (e.dataset, stream) {
                (None, Some(stream)) => Some("fluent-ecs."@ + stream),
                _ => e.dataset,
            },
            ..e
        },
    }
}

/// The record with its time settled: a record without a timestamp gets the
/// arrival as its timestamp; a record whose timestamp is another instant keeps
/// it and notes the arrival as the creation of the event.
pub open spec fn with_arrival(d: FluentBitJsonView, arrival: Timestamp) -> FluentBitJsonView {
    match d.timestamp {
        Some(ts) => if ts.same_instant(arrival) {
            d
        } else {
            d.with_event(EventView { created: Some(arrival), ..d.event_or_empty() })
        },
        None => FluentBitJsonView { timestamp: Some(arrival), ..d },
    }
}

/// The record with a plain-text `log` merged into the message: it becomes the
/// message where there is none, and goes to `misc` where there is one.
pub open spec fn with_log_merged(d: FluentBitJsonView) -> FluentBitJsonView {
    match d.log_text() {
        Some(log) => match d.message {
            Some(_) => FluentBitJsonView { log: None, ..d.noting(labelled("log"@, log)) },
            None => FluentBitJsonView { log: None, message: Some(log), ..d },
        },
        None => d,
    }
}

/// The two keys that the last pass drops: `stream`, which the collector adds to
/// mark the stream it read and which may name the dataset, and `_p`, a flag of
/// the collector's own processing.
pub open spec fn settles(key: Seq<char>) -> bool {
    key == "stream"@ || key == "_p"@
}

/// The keys that the converter of `app` takes from the unclaimed keys.
pub open spec fn claims(app: Option<Application>, key: Seq<char>) -> bool {
    match app {
        Some(Application::Metallb) => crate::metallb::reads(key)
            || crate::metallb::kept_keys().contains(key),
        Some(Application::Etcd) => crate::etcd::reads(key) || crate::etcd::kept_keys().contains(
            key,
        ),
        Some(Application::Postfix) => false,
        Some(Application::KubernetesDashboardMetricsScraper) => crate::kubernetes_dashboard::reads(
            key,
        ),
        None => false,
    }
}

/// What the last pass makes of a record that arrived at `arrival`.
pub open spec fn finalized(d: FluentBitJsonView, arrival: Timestamp) -> FluentBitJsonView {
    let stream = string_at(d.other, "stream"@);
    let d = d.without("stream"@);
    let d = d.with_event(event_defaults(d.event_or_empty(), stream));
    let d = with_arrival(d, arrival);
    let d = with_log_merged(d);
    d.without("_p"@)
}

fn merge_log(json: &mut FluentBitJson)
    ensures
        final(json)@ == with_log_merged(old(json)@),
{
    let is_text = match &json.log {
        Some(LogOrString::String(_)) => true,
        _ => false,
    };
    if is_text {
        match json.log.take() {
            Some(LogOrString::String(log)) => {
                if json.message.is_some() {
                    json.note("log", log.as_str());
                } else {
                    json.message = Some(log);
                }
            },
            _ => {},
        }
    }
}

/// Settles what every record gets, whatever wrote it.
pub fn set_basic_data(json: &mut FluentBitJson, time: Timestamp)
    ensures
        final(json)@ == finalized(old(json)@, time),
{
    let stream = match json.take_value("stream") {
        Some(v) => match value_as_str(&v) {
            Some(s) => Some(String::from_str(s)),
            None => None,
        },
        None => None,
    };
    {
        let event = json.event();
        if event.kind.is_none() {
            event.kind = Some(String::from_str("event"));
        }
        if event.module.is_none() {
            event.module = Some(String::from_str("fluent-ecs"));
            match stream {
                Some(stream) => {
                    if event.dataset.is_none() {
                        let mut dataset = String::from_str("fluent-ecs.");
                        dataset.append(stream.as_str());
                        event.dataset = Some(dataset);
                    }
                },
                None => {},
            }
        }
    }

    match json.timestamp {
        Some(ts) => {
            if !ts.is_same_instant(&time) {
                json.event().created = Some(time);
            }
        },
        None => {
            json.timestamp = Some(time);
        },
    }
    merge_log(json);

    let _ = json.take_value("_p");
}

/// What `convert_record` makes of a record that arrived at `arrival`: the
/// converter of its application, then the Kubernetes metadata, then the last
/// pass.
pub open spec fn converted(
    d: FluentBitJsonView,
    arrival: Timestamp,
    took: Option<u64>,
) -> FluentBitJsonView {
    finalized(normalized(app_converted(d, application_of(d), arrival, took)), arrival)
}

/// Rewrites a record into the canonical schema.
///
/// `time` is the time at which the record arrived. `took` is the duration in
/// nanoseconds that the record's `took` text stands for, if it has one that
/// stands for a duration; only the converter for etcd looks at it.
pub fn convert_record(json: &mut FluentBitJson, time: Timestamp, took: Option<u64>)
    ensures
        final(json)@ == converted(old(json)@, time, took),
        final(json)@.kubernetes is None,
{
    do_app_specific_conversion(json, &time, took);
    convert_kubernetes_metadata(json);
    set_basic_data(json, time);
}

/// The document that stands in for a record that could not be written as JSON:
/// an object with the one key `fluent-ecs-error`, whose value is the message as
/// a JSON string.
pub open spec fn error_document(message: Seq<char>) -> Seq<char> {
    "{\"fluent-ecs-error\": "@ + json_text(json_of_string(message)) + "}"@
}

/// Writes the document that stands in for a record that could not be written as
/// JSON.
pub fn serialization_error_document(message: &str) -> (r: String)
    ensures
        r@ == error_document(message@),
{
    let mut r = String::from_str("{\"fluent-ecs-error\": ");
    r.append(value_to_text(&string_value(message)).as_str());
    r.append("}");
    r
}

/// The names of the fields of a record: a key of one of these names cannot stand
/// among the unclaimed keys.
pub open spec fn field_names() -> Seq<Seq<char>> {
    seq![
        "kubernetes"@,
        "@timestamp"@,
        "message"@,
        "event"@,
        "error"@,
        "container"@,
        "host"@,
        "log"@,
        "network"@,
        "orchestrator"@,
        "process"@,
        "user"@,
        "source"@,
        "service"@,
        "transaction"@,
        "misc"@,
    ]
}

/// The record that holds `keys` as its unclaimed keys and nothing else, but that
/// the keys that go by the name of a field are moved to `misc`.
pub open spec fn untyped(keys: Map<Seq<char>, serde_json::Value>) -> FluentBitJsonView {
    (FluentBitJsonView { other: keys, ..FluentBitJsonView::empty() }).moved_all(field_names())
}

/// Makes a record of an object whose fields do not have the shape of a record:
/// nothing is read into a field, and no key is lost.
pub fn untyped_record(keys: JsonObject) -> (r: FluentBitJson)
    ensures
        r@ == untyped(object_entries(keys)),
{
    let mut json = FluentBitJson::new();
    json.other = keys;
    let names = vec![
        "kubernetes",
        "@timestamp",
        "message",
        "event",
        "error",
        "container",
        "host",
        "log",
        "network",
        "orchestrator",
        "process",
        "user",
        "source",
        "service",
        "transaction",
        "misc",
    ];
    assert(key_texts(names@) =~= field_names());
    json.move_keys_to_misc(&names);
    json
}

} // verus!
