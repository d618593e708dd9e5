//! The converter for MetalLB's structured logs.

use crate::etcd::log_with;
use crate::extract::{
    caller_of, take_caller, take_timestamp, with_timestamp_key, without_caller,
};
use crate::json::{json_text, lookup, plain_text, string_at, val_to_string, value_to_text};
use crate::model::ecs::{ErrorView, EventView, LogView, NetworkView, ServiceView};
use crate::model::{
    key_texts, ErrorOrString, EventOrString, FluentBitJson, FluentBitJsonView,
};
use crate::text::{append_texts, labelled, one_text, push_text, str_eq, two_texts};
use vstd::prelude::*;
use vstd::string::StringExecFns;

verus! {

/// The severity that MetalLB's level names stand for.
pub open spec fn severity_of(level: Seq<char>) -> Option<u32> {
    if level == "debug"@ {
        Some(100u32)
    } else if level == "info"@ {
        Some(200u32)
    } else if level == "warn"@ {
        Some(300u32)
    } else if level == "error"@ {
        Some(400u32)
    } else {
        None
    }
}

/// The severity of a level of MetalLB, if it is one of the known levels.
pub fn convert_severity(level: &str) -> (r: Option<u32>)
    ensures
        r == severity_of(level@),
{
    if str_eq(level, "debug") {
        Some(100)
    } else if str_eq(level, "info") {
        Some(200)
    } else if str_eq(level, "warn") {
        Some(300)
    } else if str_eq(level, "error") {
        Some(400)
    } else {
        None
    }
}

/// The event categories of an operation: session changes are also `session`.
pub open spec fn category_of(op: Seq<char>) -> Seq<Seq<char>> {
    if op == "sessionUp"@ || op == "sessionDown"@ {
        seq!["network"@, "session"@]
    } else {
        seq!["network"@]
    }
}

/// The event categories of an operation.
pub fn convert_category(event: &str) -> (r: Vec<String>)
    ensures
        r.deep_view() == category_of(event@),
{
    if str_eq(event, "sessionUp") || str_eq(event, "sessionDown") {
        two_texts("network", "session")
    } else {
        one_text("network")
    }
}

/// The event types of an operation.
pub open spec fn type_of(op: Seq<char>) -> Seq<Seq<char>> {
    if op == "serviceAnnounced"@ || op == "sessionUp"@ {
        seq!["start"@]
    } else if op == "serviceWithdrawn"@ || op == "sessionDown"@ {
        seq!["end"@]
    } else if op == "createARPResponder"@ || op == "createNDPResponder"@ {
        seq!["creation"@]
    } else {
        Seq::empty()
    }
}

/// The event types of an operation.
pub fn convert_type(event: &str) -> (r: Vec<String>)
    ensures
        r.deep_view() == type_of(event@),
{
    if str_eq(event, "serviceAnnounced") || str_eq(event, "sessionUp") {
        one_text("start")
    } else if str_eq(event, "serviceWithdrawn") || str_eq(event, "sessionDown") {
        one_text("end")
    } else if str_eq(event, "createARPResponder") || str_eq(event, "createNDPResponder") {
        one_text("creation")
    } else {
        let r: Vec<String> = Vec::new();
        assert(r.deep_view() =~= Seq::<Seq<char>>::empty());
        r
    }
}

/// The operations that have succeeded when they are logged at level `info`.
pub open spec fn succeeds_at_info(op: Seq<char>) -> bool {
    op == "serviceAnnounced"@ || op == "serviceWithdrawn"@ || op == "serviceDeleted"@ || op
        == "peerAdded"@ || op == "peerRemoved"@ || op == "sessionUp"@ || op
        == "createARPResponder"@ || op == "createNDPResponder"@
}

/// The operations that have failed when they are logged at level `error`.
pub open spec fn fails_at_error(op: Seq<char>) -> bool {
    op == "updateServiceStatus"@ || op == "connect"@ || op == "sendUpdate"@ || op
        == "getInterfaces"@ || op == "getAddresses"@ || op == "reload-validate"@ || op
        == "reload"@ || op == "listenAndServe"@
}

/// The outcome of an operation, which the operation and the level decide
/// together.
pub open spec fn outcome_of(op: Seq<char>, level: Option<Seq<char>>) -> Option<Seq<char>> {
    match level {
        Some(level) => if level == "info"@ && succeeds_at_info(op) {
            Some("success"@)
        } else if level == "error"@ && fails_at_error(op) {
            Some("failure"@)
        } else {
            None
        },
        None => None,
    }
}

/// The outcome of an operation that was logged at `level`.
pub fn convert_outcome(ev: &str, level: &Option<String>) -> (r: Option<String>)
    ensures
        r.deep_view() == outcome_of(ev@, level.deep_view()),
{
    match level {
        Some(level) => {
            if str_eq(level.as_str(), "info") && (str_eq(ev, "serviceAnnounced") || str_eq(
                ev,
                "serviceWithdrawn",
            ) || str_eq(ev, "serviceDeleted") || str_eq(ev, "peerAdded") || str_eq(
                ev,
                "peerRemoved",
            ) || str_eq(ev, "sessionUp") || str_eq(ev, "createARPResponder") || str_eq(
                ev,
                "createNDPResponder",
            )) {
                Some(String::from_str("success"))
            } else if str_eq(level.as_str(), "error") && (str_eq(ev, "updateServiceStatus")
                || str_eq(ev, "connect") || str_eq(ev, "sendUpdate") || str_eq(ev, "getInterfaces")
                || str_eq(ev, "getAddresses") || str_eq(ev, "reload-validate") || str_eq(
                ev,
                "reload",
            ) || str_eq(ev, "listenAndServe")) {
                Some(String::from_str("failure"))
            } else {
                None
            }
        },
        None => None,
    }
}

/// The action that an operation is recorded as: its own name, but for the one
/// operation that is no action.
pub open spec fn action_of(op: Seq<char>) -> Option<Seq<char>> {
    if op == "force service reload"@ {
        None
    } else {
        Some(op)
    }
}

/// The action that an operation is recorded as.
pub fn convert_action(ev: &str) -> (r: Option<String>)
    ensures
        r.deep_view() == action_of(ev@),
{
    if str_eq(ev, "force service reload") {
        None
    } else {
        Some(String::from_str(ev))
    }
}

/// The operation that a record is about: the plain text that `event` arrived
/// as, or else the text under `op`.
pub open spec fn operation_of(d: FluentBitJsonView) -> Option<Seq<char>> {
    match d.event_text() {
        Some(s) => Some(s),
        None => string_at(d.other, "op"@),
    }
}

/// The record after its operation has been read: a plain text in `event` is
/// consumed, and the key `op` only where `event` did not name the operation; an
/// `op` that is no text is kept in `misc`.
pub open spec fn without_operation(d: FluentBitJsonView) -> FluentBitJsonView {
    match d.event_text() {
        Some(_) => FluentBitJsonView { event: None, ..d },
        None => d.text_read("op"@, "op"@),
    }
}

fn extract_op(json: &mut FluentBitJson) -> (r: Option<String>)
    ensures
        final(json)@ == without_operation(old(json)@),
        r.deep_view() == operation_of(old(json)@),
{
    let named = match &json.event {
        Some(EventOrString::String(s)) => Some(s.clone()),
        _ => None,
    };
    match named {
        Some(s) => {
            json.event = None;
            Some(s)
        },
        None => json.take_string("op"),
    }
}

/// Whether the action stands in as the message: where there is neither an
/// error text nor a `msg` nor an operation.
pub open spec fn action_is_message(
    d: FluentBitJsonView,
    msg: Option<Seq<char>>,
    operation: Option<Seq<char>>,
) -> bool {
    d.error_text() is None && msg is None && operation is None
}

/// The record after message and error have been settled. An error text wins
/// over `msg`, which then goes to `misc`; without either, the operation or else
/// the action stands in as the message. An action that does not become the
/// message is kept in `misc`.
pub open spec fn with_message(
    d: FluentBitJsonView,
    msg: Option<Seq<char>>,
    operation: Option<Seq<char>>,
    action: Option<serde_json::Value>,
) -> FluentBitJsonView {
    let settled = match d.error_text() {
        Some(error) => {
            let d = (FluentBitJsonView { error: None, ..d }).with_message(error);
            let d = d.with_error(ErrorView { message: Some(error), ..d.error_or_empty() });
            match msg {
                Some(msg) => d.noting(labelled("msg"@, msg)),
                None => d,
            }
        },
        None => match msg {
            Some(msg) => d.with_message(msg),
            None => match operation {
                Some(op) => d.with_message(op),
                None => match action {
                    Some(action) => d.with_message(json_text(action)),
                    None => d,
                },
            },
        },
    };
    match action {
        Some(action) => if action_is_message(d, msg, operation) {
            settled
        } else {
            settled.noting(labelled("action"@, plain_text(action)))
        },
        None => settled,
    }
}

/// The event sub-object after the operation and the level have been written
/// to it. Categories and types are added to those that the event has already.
pub open spec fn event_with(
    e: EventView,
    operation: Option<Seq<char>>,
    level: Option<Seq<char>>,
) -> EventView {
    let e = EventView { kind: Some("event"@), module: Some("metallb"@), ..e };
    let e = match operation {
        Some(op) => EventView {
            category: e.category + category_of(op),
            type_val: e.type_val + type_of(op),
            outcome: outcome_of(op, level),
            action: action_of(op),
            ..e
        },
        None => EventView { category: e.category.push("network"@), ..e },
    };
    match level {
        Some(level) => EventView { severity: severity_of(level), ..e },
        None => e,
    }
}

/// The keys that the MetalLB converter reads into fields of the schema.
pub open spec fn reads(key: Seq<char>) -> bool {
    key == "op"@ || key == "level"@ || key == "ts"@ || key == "action"@ || key == "msg"@ || key
        == "caller"@ || key == "logger"@ || key == "protocol"@
}

/// The keys that the MetalLB converter knows but has no field for: they go to
/// `misc`, in this order.
pub open spec fn kept_keys() -> Seq<Seq<char>> {
    seq![
        "ips"@,
        "interface"@,
        "pool"@,
        "controller"@,
        "name"@,
        "gvk"@,
        "IPAdvertisement"@,
        "service"@,
        "localIfs"@,
        "reason"@,
        "expected"@,
        "joined"@,
    ]
}

/// The level of the record, if it is a text.
pub open spec fn level_of(d: FluentBitJsonView) -> Option<Seq<char>> {
    string_at(without_operation(d).other, "level"@)
}

/// The record after operation, level, timestamp, action and message have been
/// read.
pub open spec fn metallb_head(d: FluentBitJsonView) -> FluentBitJsonView {
    let operation = operation_of(d);
    let d = without_operation(d);
    let d = d.text_read("level"@, "level"@);
    let d = with_timestamp_key(d, "ts"@, "ts"@);
    let action = lookup(d.other, "action"@);
    let d = d.without("action"@);
    let msg = string_at(d.other, "msg"@);
    let d = d.text_read("msg"@, "msg"@);
    with_message(d, msg, operation, action)
}

/// The record after an operation that is not recorded as an action has been
/// kept in `misc`.
pub open spec fn with_operation_kept(
    d: FluentBitJsonView,
    operation: Option<Seq<char>>,
) -> FluentBitJsonView {
    match operation {
        Some(op) => if action_of(op) is None {
            d.noting(labelled("op"@, op))
        } else {
            d
        },
        None => d,
    }
}

/// The record after service, event, log and network have been written, for the
/// operation and the level that were read.
pub open spec fn metallb_tail(
    d: FluentBitJsonView,
    operation: Option<Seq<char>>,
    level: Option<Seq<char>>,
) -> FluentBitJsonView {
    let d = d.with_service(ServiceView { type_val: Some("metallb"@), ..d.service_or_empty() });
    let d = d.with_event(event_with(d.event_or_empty(), operation, level));
    let d = with_operation_kept(d, operation);
    let caller = caller_of(d);
    let d = without_caller(d);
    let logger = string_at(d.other, "logger"@);
    let d = d.text_read("logger"@, "logger"@);
    let l = log_with(d.log_or_empty(), level, caller);
    let d = d.with_log(
        match logger {
            Some(logger) => LogView { logger: Some(logger), ..l },
            None => l,
        },
    );
    let protocol = string_at(d.other, "protocol"@);
    let d = d.text_read("protocol"@, "protocol"@);
    match protocol {
        Some(p) => d.with_network(NetworkView { protocol: Some(p), ..d.network_or_empty() }),
        None => d,
    }
}

/// The record after the keys that have a field in the schema have been read.
pub open spec fn metallb_fields(d: FluentBitJsonView) -> FluentBitJsonView {
    metallb_tail(metallb_head(d), operation_of(d), level_of(d))
}

/// The record after the keys that have no field in the schema have gone to
/// `misc`.
pub open spec fn metallb_leftovers(d: FluentBitJsonView) -> FluentBitJsonView {
    d.moved_all(kept_keys())
}

/// What the MetalLB converter makes of a record.
pub open spec fn metallb_converted(d: FluentBitJsonView) -> FluentBitJsonView {
    metallb_leftovers(metallb_fields(d))
}

fn settle_message(
    json: &mut FluentBitJson,
    msg: Option<String>,
    operation: &Option<String>,
    action: Option<serde_json::Value>,
)
    ensures
        final(json)@ == with_message(old(json)@, msg.deep_view(), operation.deep_view(), action),
{
    let error_text = match &json.error {
        Some(ErrorOrString::String(error)) => Some(error.clone()),
        _ => None,
    };
    let standing_in = error_text.is_none() && msg.is_none() && operation.is_none();
    match error_text {
        Some(error) => {
            json.error = None;
            json.set_message(error.clone());
            json.error().message = Some(error);
            match msg {
                Some(msg) => {
                    json.note("msg", msg.as_str());
                },
                None => {},
            }
        },
        None => match msg {
            Some(msg) => {
                json.set_message(msg);
            },
            None => match operation {
                Some(op) => {
                    json.set_message(op.clone());
                },
                None => {},
            },
        },
    }
    match action {
        Some(action) => {
            if standing_in {
                json.set_message(value_to_text(&action));
            } else {
                let text = val_to_string(&action);
                json.note("action", text.as_str());
            }
        },
        None => {},
    }
}

/// Rewrites a MetalLB record.
pub fn convert_metallb_logs(json: &mut FluentBitJson)
    ensures
        final(json)@ == metallb_converted(old(json)@),
{
    let event_or_op = extract_op(json);
    let level = json.take_string("level");

    take_timestamp(json, "ts", "ts");

    let action = json.take_value("action");
    let msg = json.take_string("msg");
    settle_message(json, msg, &event_or_op, action);

    json.service().type_val = Some(String::from_str("metallb"));

    {
        let event = json.event();
        event.kind = Some(String::from_str("event"));
        event.module = Some(String::from_str("metallb"));
        match &event_or_op {
            Some(ev) => {
                append_texts(&mut event.category, convert_category(ev.as_str()));
                append_texts(&mut event.type_val, convert_type(ev.as_str()));
                event.outcome = convert_outcome(ev.as_str(), &level);
                event.action = convert_action(ev.as_str());
            },
            None => {
                push_text(&mut event.category, "network");
            },
        }
        match &level {
            Some(level) => {
                event.severity = convert_severity(level.as_str());
            },
            None => {},
        }
    }
    match &event_or_op {
        Some(ev) => {
            if convert_action(ev.as_str()).is_none() {
                json.note("op", ev.as_str());
            }
        },
        None => {},
    }

    let caller = take_caller(json);
    let logger = json.take_string("logger");
    {
        let log = json.log();
        match level {
            Some(level) => {
                log.level = Some(level);
            },
            None => {},
        }
        match caller {
            Some((file, line)) => {
                let origin_file = log.origin().file();
                origin_file.name = Some(file);
                origin_file.line = Some(line);
            },
            None => {},
        }
        match logger {
            Some(logger) => {
                log.logger = Some(logger);
            },
            None => {},
        }
    }

    match json.take_string("protocol") {
        Some(protocol) => {
            json.network().protocol = Some(protocol);
        },
        None => {},
    }

    let keys = vec![
        "ips",
        "interface",
        "pool",
        "controller",
        "name",
        "gvk",
        "IPAdvertisement",
        "service",
        "localIfs",
        "reason",
        "expected",
        "joined",
    ];
    assert(key_texts(keys@) =~= kept_keys());
    json.move_keys_to_misc(&keys);
}

} // verus!
