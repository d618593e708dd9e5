//! The converter for Keycloak's structured logs and for the event lines that
//! its event logger writes.

use crate::extract::{mark_unparsed, marked_unparsed, take_timestamp, with_timestamp_key};
use crate::grammar::keycloak::{event_log, is_escape, parse_event_line, KeyValue};
use crate::json::{
    json_is_number, json_string, json_text, json_u64, lookup, string_at, value_as_str,
    value_as_u64, value_is_number, value_to_text,
};
use crate::model::ecs::{
    ErrorView, EventView, HostView, LogView, ProcessThreadView, ProcessView, ServiceView,
    SourceView, UserView,
};
use crate::model::{key_texts, FluentBitJson, FluentBitJsonView};
use crate::text::{chars_of, labelled, push_text, str_eq, string_of};
use serde_json::Value;
use vstd::prelude::*;
use vstd::string::StringExecFns;

verus! {

/// The severity that Keycloak's level names stand for.
pub open spec fn severity_of(level: Seq<char>) -> Option<u32> {
    if level == "TRACE"@ {
        Some(50u32)
    } else if level == "DEBUG"@ {
        Some(100u32)
    } else if level == "INFO"@ {
        Some(200u32)
    } else if level == "WARN"@ {
        Some(300u32)
    } else if level == "ERROR"@ {
        Some(400u32)
    } else if level == "FATAL"@ {
        Some(500u32)
    } else {
        None
    }
}

/// The severity of a level of Keycloak, if it is one of the known levels.
pub fn convert_severity(level: &str) -> (r: Option<u32>)
    ensures
        r == severity_of(level@),
{
    if str_eq(level, "TRACE") {
        Some(50)
    } else if str_eq(level, "DEBUG") {
        Some(100)
    } else if str_eq(level, "INFO") {
        Some(200)
    } else if str_eq(level, "WARN") {
        Some(300)
    } else if str_eq(level, "ERROR") {
        Some(400)
    } else if str_eq(level, "FATAL") {
        Some(500)
    } else {
        None
    }
}

/// The character that stands after a backslash for another one: `n` for a
/// line feed, `r` for a carriage return, `t` for a tab; a quote and a backslash
/// stand for themselves.
pub open spec fn escaped(c: char) -> char {
    if c == 'n' {
        '\n'
    } else if c == 'r' {
        '\r'
    } else if c == 't' {
        '\t'
    } else {
        c
    }
}

/// The text that a quoted value stands for, read from left to right: a
/// backslash and the character it escapes give one character, every other
/// character gives itself.
pub open spec fn unmasked(s: Seq<char>) -> Seq<char>
    decreases s.len(),
{
    if s.len() == 0 {
        s
    } else if s.len() >= 2 && s[0] == '\\' && is_escape(s[1]) {
        seq![escaped(s[1])] + unmasked(s.skip(2))
    } else {
        seq![s[0]] + unmasked(s.skip(1))
    }
}

/// Undoes the escapes of a quoted value.
pub fn unmask(string: &str) -> (r: String)
    ensures
        r@ == unmasked(string@),
{
    let s = chars_of(string);
    let n = s.len();
    let mut out: Vec<char> = Vec::new();
    let mut i: usize = 0;
    assert(s@.skip(0) =~= s@);
    while i < n
        invariant
            n == s@.len(),
            i <= n,
            out@ + unmasked(s@.skip(i as int)) == unmasked(s@),
        decreases n - i,
    {
        let ghost rest = s@.skip(i as int);
        let ghost before = out@;
        if s[i] == '\\' && n - i >= 2 && (s[i + 1] == '"' || s[i + 1] == '\\' || s[i + 1] == 'n'
            || s[i + 1] == 'r' || s[i + 1] == 't') {
            let c = s[i + 1];
            let decoded = if c == 'n' {
                '\n'
            } else if c == 'r' {
                '\r'
            } else if c == 't' {
                '\t'
            } else {
                c
            };
            out.push(decoded);
            proof {
                assert(rest[0] == s@[i as int] && rest[1] == s@[i + 1]);
                assert(rest.skip(2) =~= s@.skip(i + 2));
                assert(out@ + unmasked(s@.skip(i + 2)) =~= before + (seq![escaped(rest[1])]
                    + unmasked(rest.skip(2))));
            }
            i += 2;
        } else {
            out.push(s[i]);
            proof {
                assert(rest[0] == s@[i as int]);
                if rest.len() >= 2 {
                    assert(rest[1] == s@[i + 1]);
                }
                assert(rest.skip(1) =~= s@.skip(i + 1));
                assert(out@ + unmasked(s@.skip(i + 1)) =~= before + (seq![rest[0]] + unmasked(
                    rest.skip(1),
                )));
            }
            i += 1;
        }
    }
    assert(s@.skip(n as int) =~= Seq::<char>::empty());
    assert(out@ + Seq::<char>::empty() =~= out@);
    string_of(out.as_slice())
}

/// The record after an event of type `value` has been written to it.
pub open spec fn with_event_type(d: FluentBitJsonView, value: Seq<char>) -> FluentBitJsonView {
    let e = d.event_or_empty();
    let e = if value == "LOGIN_ERROR"@ {
        EventView {
            category: e.category.push("authentication"@),
            type_val: e.type_val.push("denied"@),
            outcome: Some("success"@),
            ..e
        }
    } else if value == "LOGIN"@ {
        EventView {
            category: e.category.push("authentication"@),
            type_val: e.type_val.push("allowed"@),
            outcome: Some("success"@),
            ..e
        }
    } else if value == "CODE_TO_TOKEN"@ {
        EventView { category: e.category.push("authentication"@), ..e }
    } else {
        e
    };
    d.with_event(EventView { action: Some(value), ..e })
}

fn convert_event_type(json: &mut FluentBitJson, value: String)
    ensures
        final(json)@ == with_event_type(old(json)@, value@),
{
    let event = json.event();
    if str_eq(value.as_str(), "LOGIN_ERROR") {
        push_text(&mut event.category, "authentication");
        push_text(&mut event.type_val, "denied");
        event.outcome = Some(String::from_str("success"));
    } else if str_eq(value.as_str(), "LOGIN") {
        push_text(&mut event.category, "authentication");
        push_text(&mut event.type_val, "allowed");
        event.outcome = Some(String::from_str("success"));
    } else if str_eq(value.as_str(), "CODE_TO_TOKEN") {
        push_text(&mut event.category, "authentication");
    }
    event.action = Some(value);
}

/// The record after one pair of an event line has been written to it. Keys
/// other than the five named here leave the record as it is.
pub open spec fn with_pair(
    d: FluentBitJsonView,
    key: Seq<char>,
    value: Seq<char>,
) -> FluentBitJsonView {
    if key == "type"@ {
        with_event_type(d, value)
    } else if key == "ipAddress"@ {
        d.with_source(SourceView { ip: Some(value), ..d.source_or_empty() })
    } else if key == "error"@ {
        d.with_error(ErrorView { message: Some(value), ..d.error_or_empty() })
    } else if key == "username"@ {
        d.with_user(UserView { name: Some(value), ..d.user_or_empty() })
    } else if key == "userId"@ && value != "null"@ {
        d.with_user(UserView { id: Some(value), ..d.user_or_empty() })
    } else {
        d
    }
}

/// Writes one pair of an event line to the record.
pub fn parse_event_key_value_par(json: &mut FluentBitJson, key: &str, value: String)
    ensures
        final(json)@ == with_pair(old(json)@, key@, value@),
{
    if str_eq(key, "type") {
        convert_event_type(json, value);
    } else if str_eq(key, "ipAddress") {
        json.source().ip = Some(value);
    } else if str_eq(key, "error") {
        json.error().message = Some(value);
    } else if str_eq(key, "username") {
        json.user().name = Some(value);
    } else if str_eq(key, "userId") {
        if !str_eq(value.as_str(), "null") {
            json.user().id = Some(value);
        }
    }
}

/// The record after the pairs `pairs` of the line `line` have been written to
/// it, one after the other.
pub open spec fn with_pairs(
    d: FluentBitJsonView,
    line: Seq<char>,
    pairs: Seq<KeyValue>,
) -> FluentBitJsonView
    decreases pairs.len(),
{
    if pairs.len() == 0 {
        d
    } else {
        with_pairs(
            with_pair(d, pairs[0].key.of(line), unmasked(pairs[0].value.of(line))),
            line,
            pairs.skip(1),
        )
    }
}

fn parse_event_log_rule(json: &mut FluentBitJson, line: &[char], pairs: &Vec<KeyValue>)
    requires
        forall|i: int| 0 <= i < pairs@.len() ==> (#[trigger] pairs@[i]).within(line@.len()),
    ensures
        final(json)@ == with_pairs(old(json)@, line@, pairs@),
{
    let mut i: usize = 0;
    assert(pairs@.skip(0) =~= pairs@);
    while i < pairs.len()
        invariant
            i <= pairs@.len(),
            forall|i: int| 0 <= i < pairs@.len() ==> (#[trigger] pairs@[i]).within(line@.len()),
            with_pairs(json@, line@, pairs@.skip(i as int)) == with_pairs(
                old(json)@,
                line@,
                pairs@,
            ),
        decreases pairs@.len() - i,
    {
        let pair = pairs[i];
        assert(pair.within(line@.len()));
        let key = pair.key.text(line);
        let raw = pair.value.text(line);
        let value = unmask(raw.as_str());
        assert(pairs@.skip(i as int)[0] == pair);
        assert(pairs@.skip(i as int).skip(1) =~= pairs@.skip(i + 1));
        parse_event_key_value_par(json, key.as_str(), value);
        i += 1;
    }
}

/// The record after its message has been read as an event line. A message that
/// is no event line stays as it is, and the record is marked.
pub open spec fn with_event_line(d: FluentBitJsonView) -> FluentBitJsonView {
    match d.message {
        Some(m) => match event_log(m) {
            Some(pairs) => with_pairs(d, m, pairs),
            None => marked_unparsed(d),
        },
        None => d,
    }
}

/// Reads the record's message as an event line.
pub fn parse_event_log(json: &mut FluentBitJson)
    ensures
        final(json)@ == with_event_line(old(json)@),
{
    let line = match &json.message {
        Some(message) => Some(chars_of(message.as_str())),
        None => None,
    };
    match line {
        Some(line) => match parse_event_line(line.as_slice()) {
            Some(pairs) => {
                parse_event_log_rule(json, line.as_slice(), &pairs);
            },
            None => {
                mark_unparsed(json);
            },
        },
        None => {},
    }
}

/// The text under `key`, where the key holds a JSON string.
pub open spec fn text_at(d: FluentBitJsonView, key: Seq<char>) -> Option<Seq<char>> {
    string_at(d.other, key)
}

/// The record after a text has been taken from `key`: the key leaves the
/// unclaimed keys, and a value that is no text is kept in `misc` under `label`.
pub open spec fn without_text(
    d: FluentBitJsonView,
    key: Seq<char>,
    label: Seq<char>,
) -> FluentBitJsonView {
    match lookup(d.other, key) {
        Some(v) => match json_string(v) {
            Some(_) => d.without(key),
            None => d.without(key).noting(labelled(label, json_text(v))),
        },
        None => d.without(key),
    }
}

fn take_text(json: &mut FluentBitJson, key: &str, label: &str) -> (r: Option<String>)
    ensures
        final(json)@ == without_text(old(json)@, key@, label@),
        r.deep_view() == text_at(old(json)@, key@),
{
    match json.take_value(key) {
        Some(v) => match value_as_str(&v) {
            Some(s) => Some(String::from_str(s)),
            None => {
                let text = value_to_text(&v);
                json.note(label, text.as_str());
                None
            },
        },
        None => None,
    }
}

/// A JSON number as a `u32`, where it is a non-negative integer that fits.
pub open spec fn small_number(v: Value) -> Option<u32> {
    match json_u64(v) {
        Some(n) => if n <= u32::MAX {
            Some(n as u32)
        } else {
            None
        },
        None => None,
    }
}

/// The id under `key`, where the key holds a number that fits a `u32`.
pub open spec fn id_at(d: FluentBitJsonView, key: Seq<char>) -> Option<u32> {
    match lookup(d.other, key) {
        Some(v) => if json_is_number(v) {
            small_number(v)
        } else {
            None
        },
        None => None,
    }
}

/// The record after an id has been taken from `key`: the key leaves the
/// unclaimed keys, and a value that is no id is kept in `misc`, a number under
/// `number_label` and anything else under `other_label`.
pub open spec fn without_id(
    d: FluentBitJsonView,
    key: Seq<char>,
    number_label: Seq<char>,
    other_label: Seq<char>,
) -> FluentBitJsonView {
    match lookup(d.other, key) {
        Some(v) => if json_is_number(v) {
            if small_number(v) is Some {
                d.without(key)
            } else {
                d.without(key).noting(labelled(number_label, json_text(v)))
            }
        } else {
            d.without(key).noting(labelled(other_label, json_text(v)))
        },
        None => d.without(key),
    }
}

fn take_id(json: &mut FluentBitJson, key: &str, number_label: &str, other_label: &str) -> (r:
    Option<u32>)
    ensures
        final(json)@ == without_id(old(json)@, key@, number_label@, other_label@),
        r == id_at(old(json)@, key@),
{
    match json.take_value(key) {
        Some(v) => {
            if value_is_number(&v) {
                let small = match value_as_u64(&v) {
                    Some(n) => if n <= 0xffff_ffff {
                        Some(n as u32)
                    } else {
                        None
                    },
                    None => None,
                };
                if small.is_none() {
                    let text = value_to_text(&v);
                    json.note(number_label, text.as_str());
                }
                small
            } else {
                let text = value_to_text(&v);
                json.note(other_label, text.as_str());
                None
            }
        },
        None => None,
    }
}

/// The record after its sequence number has been read: a number is written to
/// the event, as far as it is a non-negative integer, and any other value is
/// kept in `misc`.
pub open spec fn with_sequence(d: FluentBitJsonView, sequence: Option<Value>) -> FluentBitJsonView {
    match sequence {
        Some(v) => if json_is_number(v) {
            d.with_event(EventView { sequence: json_u64(v), ..d.event_or_empty() })
        } else {
            d.noting(labelled("sequence"@, json_text(v)))
        },
        None => d,
    }
}

/// Whether the record was written by Keycloak's event logger.
pub open spec fn is_event_record(d: FluentBitJsonView) -> bool {
    d.log_or_empty().logger == Some("org.keycloak.events"@)
}

/// The keys that the Keycloak converter reads into fields of the schema.
pub open spec fn reads(key: Seq<char>) -> bool {
    key == "level"@ || key == "timestamp"@ || key == "sequence"@ || key == "loggerName"@ || key
        == "processName"@ || key == "processId"@ || key == "threadName"@ || key == "threadId"@
        || key == "hostName"@
}

/// The keys that the Keycloak converter knows but has no field for: they go to
/// `misc`, in this order.
pub open spec fn kept_keys() -> Seq<Seq<char>> {
    seq!["mdc"@, "ndc"@, "loggerClassName"@]
}

/// The record after level, timestamp, sequence number and logger have been
/// read.
#[verifier::opaque]
pub open spec fn with_log_fields(d: FluentBitJsonView) -> FluentBitJsonView {
    let level = string_at(d.other, "level"@);
    let d = d.text_read("level"@, "level"@);
    let d = with_timestamp_key(d, "timestamp"@, "ts"@);
    let d = d.with_service(ServiceView { type_val: Some("keycloak"@), ..d.service_or_empty() });
    let sequence = lookup(d.other, "sequence"@);
    let d = d.without("sequence"@);
    let e = d.event_or_empty();
    let d = d.with_event(
        EventView {
            module: Some("keycloak"@),
            category: e.category.push("iam"@),
            severity: match level {
                Some(l) => severity_of(l),
                None => e.severity,
            },
            ..e
        },
    );
    let d = with_sequence(d, sequence);
    let logger = text_at(d, "loggerName"@);
    let d = without_text(d, "loggerName"@, "logger"@);
    let l = d.log_or_empty();
    d.with_log(
        LogView {
            level: match level {
                Some(level) => Some(level),
                None => l.level,
            },
            logger: match logger {
                Some(logger) => Some(logger),
                None => l.logger,
            },
            ..l
        },
    )
}

/// The record after the process and the thread have been read.
#[verifier::opaque]
pub open spec fn with_process_fields(d: FluentBitJsonView) -> FluentBitJsonView {
    let process_name = text_at(d, "processName"@);
    let d = without_text(d, "processName"@, "processName"@);
    let d = match process_name {
        Some(name) => d.with_process(ProcessView { name: Some(name), ..d.process_or_empty() }),
        None => d,
    };
    let process_id = id_at(d, "processId"@);
    let d = without_id(d, "processId"@, "processId"@, "process_id"@);
    let d = match process_id {
        Some(pid) => d.with_process(ProcessView { pid: Some(pid), ..d.process_or_empty() }),
        None => d,
    };
    let thread_name = text_at(d, "threadName"@);
    let d = without_text(d, "threadName"@, "threadName"@);
    let d = match thread_name {
        Some(name) => {
            let p = d.process_or_empty();
            d.with_process(
                ProcessView {
                    thread: Some(ProcessThreadView { name: Some(name), ..p.thread_or_empty() }),
                    ..p
                },
            )
        },
        None => d,
    };
    let thread_id = id_at(d, "threadId"@);
    let d = without_id(d, "threadId"@, "threadId"@, "threadId"@);
    match thread_id {
        Some(id) => {
            let p = d.process_or_empty();
            d.with_process(
                ProcessView {
                    thread: Some(ProcessThreadView { id: Some(id), ..p.thread_or_empty() }),
                    ..p
                },
            )
        },
        None => d,
    }
}

/// The record after the host has been read.
#[verifier::opaque]
pub open spec fn with_host_fields(d: FluentBitJsonView) -> FluentBitJsonView {
    let host_name = text_at(d, "hostName"@);
    let d = without_text(d, "hostName"@, "hostName"@);
    match host_name {
        Some(name) => d.with_host(HostView { hostname: Some(name), ..d.host_or_empty() }),
        None => d,
    }
}

/// The record after the keys that have a field in the schema have been read.
pub open spec fn keycloak_fields(d: FluentBitJsonView) -> FluentBitJsonView {
    with_host_fields(with_process_fields(with_log_fields(d)))
}

/// The record after the keys that have no field in the schema have gone to
/// `misc`.
pub open spec fn keycloak_leftovers(d: FluentBitJsonView) -> FluentBitJsonView {
    d.moved_all(kept_keys())
}

/// What the Keycloak converter makes of a record.
pub open spec fn keycloak_converted(d: FluentBitJsonView) -> FluentBitJsonView {
    let d = keycloak_leftovers(keycloak_fields(d));
    if is_event_record(d) {
        with_event_line(d)
    } else {
        d
    }
}

fn convert_log_fields(json: &mut FluentBitJson)
    ensures
        final(json)@ == with_log_fields(old(json)@),
{
    reveal(with_log_fields);
    let level = json.take_string("level");

    take_timestamp(json, "timestamp", "ts");

    json.service().type_val = Some(String::from_str("keycloak"));
    let sequence = json.take_value("sequence");

    {
        let event = json.event();
        event.module = Some(String::from_str("keycloak"));
        push_text(&mut event.category, "iam");
        match &level {
            Some(level) => {
                event.severity = convert_severity(level.as_str());
            },
            None => {},
        }
    }
    match sequence {
        Some(sequence) => {
            if value_is_number(&sequence) {
                json.event().sequence = value_as_u64(&sequence);
            } else {
                let text = value_to_text(&sequence);
                json.note("sequence", text.as_str());
            }
        },
        None => {},
    }

    let logger_name = take_text(json, "loggerName", "logger");
    let log = json.log();
    match level {
        Some(level) => {
            log.level = Some(level);
        },
        None => {},
    }
    match logger_name {
        Some(logger) => {
            log.logger = Some(logger);
        },
        None => {},
    }
}

fn convert_process_fields(json: &mut FluentBitJson)
    ensures
        final(json)@ == with_process_fields(old(json)@),
{
    reveal(with_process_fields);
    match take_text(json, "processName", "processName") {
        Some(process_name) => {
            json.process().name = Some(process_name);
        },
        None => {},
    }
    match take_id(json, "processId", "processId", "process_id") {
        Some(pid) => {
            json.process().pid = Some(pid);
        },
        None => {},
    }
    match take_text(json, "threadName", "threadName") {
        Some(thread_name) => {
            json.process().thread().name = Some(thread_name);
        },
        None => {},
    }
    match take_id(json, "threadId", "threadId", "threadId") {
        Some(id) => {
            json.process().thread().id = Some(id);
        },
        None => {},
    }
}

fn convert_host_fields(json: &mut FluentBitJson)
    ensures
        final(json)@ == with_host_fields(old(json)@),
{
    reveal(with_host_fields);
    match take_text(json, "hostName", "hostName") {
        Some(host_name) => {
            json.host().hostname = Some(host_name);
        },
        None => {},
    }
}

/// Rewrites a Keycloak record.
pub fn convert_keycloak_logs(json: &mut FluentBitJson)
    ensures
        final(json)@ == keycloak_converted(old(json)@),
{
    convert_log_fields(json);
    convert_process_fields(json);
    convert_host_fields(json);

    let keys = vec!["mdc", "ndc", "loggerClassName"];
    assert(key_texts(keys@) =~= kept_keys());
    json.move_keys_to_misc(&keys);

    let from_event_logger = match &json.log {
        Some(crate::model::LogOrString::Log(log)) => match &log.logger {
            Some(logger) => str_eq(logger.as_str(), "org.keycloak.events"),
            None => false,
        },
        _ => false,
    };
    if from_event_logger {
        parse_event_log(json);
    }
}

} // verus!
