//! What holds of the converters, whatever the record.

use crate::json::{lookup, plain_text};
use crate::kubernetes::normalized;
use crate::model::FluentBitJsonView;
use crate::text::labelled;
use crate::time::{civil_month, civil_year, utc_instant, Timestamp};
use crate::{
    app_converted, application_of, claims, converted, finalized, settles,
    Application,
};
use vstd::prelude::*;

verus! {

/// Moving a key to `misc` touches no other key, loses no entry of `misc`, and
/// leaves the value of the key in `misc`.
pub proof fn lemma_moved_to_misc(d: FluentBitJsonView, key: Seq<char>)
    ensures
        forall|k: Seq<char>| k != key ==> lookup(d.moved_to_misc(key).other, k) == lookup(d.other, k),
        lookup(d.moved_to_misc(key).other, key) is None,
        forall|i: int|
            0 <= i < d.misc.len() ==> d.moved_to_misc(key).misc.len() > i && d.moved_to_misc(
                key,
            ).misc[i] == d.misc[i],
        lookup(d.other, key) matches Some(v) ==> d.moved_to_misc(key).misc.len() == d.misc.len() + 1
            && d.moved_to_misc(key).misc.last() == labelled(key, plain_text(v)),
        lookup(d.other, key) is None ==> d.moved_to_misc(key) == d,
{
}

/// Moving keys to `misc` leaves every other key as it is.
pub proof fn lemma_moved_all_keeps_other_keys(
    d: FluentBitJsonView,
    keys: Seq<Seq<char>>,
    key: Seq<char>,
)
    requires
        !keys.contains(key),
    ensures
        lookup(d.moved_all(keys).other, key) == lookup(d.other, key),
    decreases keys.len(),
{
    if keys.len() > 0 {
        assert(keys.last() != key) by {
            assert(keys[keys.len() - 1] == keys.last());
        }
        assert forall|i: int| 0 <= i < keys.drop_last().len() implies keys.drop_last()[i]
            != key by {
            assert(keys[i] == keys.drop_last()[i]);
        }
        lemma_moved_all_keeps_other_keys(d, keys.drop_last(), key);
        lemma_moved_to_misc(d.moved_all(keys.drop_last()), keys.last());
    }
}

/// Moving keys to `misc` only adds to `misc`: what was there stays where it was.
pub proof fn lemma_moved_all_extends_misc(d: FluentBitJsonView, keys: Seq<Seq<char>>)
    ensures
        d.misc.len() <= d.moved_all(keys).misc.len(),
        forall|i: int| 0 <= i < d.misc.len() ==> d.moved_all(keys).misc[i] == d.misc[i],
    decreases keys.len(),
{
    if keys.len() > 0 {
        lemma_moved_all_extends_misc(d, keys.drop_last());
        lemma_moved_to_misc(d.moved_all(keys.drop_last()), keys.last());
    }
}

/// A key that is moved to `misc` leaves the unclaimed keys, and its value is
/// in `misc` afterwards.
pub proof fn lemma_moved_all_notes_value(
    d: FluentBitJsonView,
    keys: Seq<Seq<char>>,
    key: Seq<char>,
)
    requires
        keys.contains(key),
    ensures
        lookup(d.moved_all(keys).other, key) is None,
        lookup(d.other, key) matches Some(v) ==> d.moved_all(keys).misc.contains(
            labelled(key, plain_text(v)),
        ),
    decreases keys.len(),
{
    let before = d.moved_all(keys.drop_last());
    lemma_moved_to_misc(before, keys.last());
    if keys.last() == key {
        if keys.drop_last().contains(key) {
            lemma_moved_all_notes_value(d, keys.drop_last(), key);
            if lookup(d.other, key) is Some {
                let entry = labelled(key, plain_text(d.other[key]));
                let i = choose|i: int| 0 <= i < before.misc.len() && before.misc[i] == entry;
                assert(d.moved_all(keys).misc[i] == entry);
            }
        } else {
            lemma_moved_all_keeps_other_keys(d, keys.drop_last(), key);
            if lookup(d.other, key) is Some {
                let after = d.moved_all(keys).misc;
                assert(after[after.len() - 1] == labelled(key, plain_text(d.other[key])));
            }
        }
    } else {
        let i = choose|i: int| 0 <= i < keys.len() && keys[i] == key;
        assert(keys.drop_last()[i] == key);
        lemma_moved_all_notes_value(d, keys.drop_last(), key);
        if lookup(d.other, key) is Some {
            let entry = labelled(key, plain_text(d.other[key]));
            let j = choose|j: int| 0 <= j < before.misc.len() && before.misc[j] == entry;
            assert(d.moved_all(keys).misc[j] == entry);
        }
    }
}

/// An etcd record keeps every key that the converter does not know, with its
/// value.
pub proof fn law_etcd_keeps_unknown_keys(d: FluentBitJsonView, took: Option<u64>, key: Seq<char>)
    requires
        !crate::etcd::reads(key),
        !crate::etcd::kept_keys().contains(key),
    ensures
        lookup(crate::etcd::etcd_converted(d, took).other, key) == lookup(d.other, key),
{
    lemma_moved_all_keeps_other_keys(
        crate::etcd::etcd_fields(d, took),
        crate::etcd::kept_keys(),
        key,
    );
}

/// The unclaimed key `key` is what it was.
pub open spec fn keeps(
    after: FluentBitJsonView,
    before: FluentBitJsonView,
    key: Seq<char>,
) -> bool {
    lookup(after.other, key) == lookup(before.other, key)
}

/// `misc` and the categories and types of the event have only grown.
pub open spec fn grows(after: FluentBitJsonView, before: FluentBitJsonView) -> bool {
    extends(after.misc, before.misc) && tags_grow(after, before)
}

/// Reading a text from a key touches no other key and loses nothing: a value
/// that is no text is the last entry of `misc` afterwards.
pub proof fn lemma_text_read(d: FluentBitJsonView, key: Seq<char>, label: Seq<char>, k: Seq<char>)
    ensures
        grows(d.text_read(key, label), d),
        k != key ==> keeps(d.text_read(key, label), d, k),
        lookup(d.other, key) matches Some(v) ==> crate::json::json_string(v) is Some || d.text_read(
            key,
            label,
        ).misc.last() == labelled(label, plain_text(v)),
{
}

/// Reading the timestamp from a key touches no other key and loses nothing.
pub proof fn lemma_timestamp_key(
    d: FluentBitJsonView,
    key: Seq<char>,
    label: Seq<char>,
    k: Seq<char>,
)
    ensures
        grows(crate::extract::with_timestamp_key(d, key, label), d),
        k != key ==> keeps(crate::extract::with_timestamp_key(d, key, label), d, k),
{
}

/// Reading the caller touches no other key and loses nothing.
pub proof fn lemma_without_caller(d: FluentBitJsonView, k: Seq<char>)
    ensures
        grows(crate::extract::without_caller(d), d),
        k != "caller"@ ==> keeps(crate::extract::without_caller(d), d, k),
{
}

/// Moving keys to `misc` touches no other key and loses nothing.
pub proof fn lemma_moved_all(d: FluentBitJsonView, keys: Seq<Seq<char>>, k: Seq<char>)
    ensures
        grows(d.moved_all(keys), d),
        !keys.contains(k) ==> keeps(d.moved_all(keys), d, k),
{
    lemma_moved_all_extends_misc(d, keys);
    lemma_moved_all_keeps_event(d, keys);
    if !keys.contains(k) {
        lemma_moved_all_keeps_other_keys(d, keys, k);
    }
}

proof fn lemma_metallb_head(d: FluentBitJsonView, k: Seq<char>)
    ensures
        grows(crate::metallb::metallb_head(d), d),
        !crate::metallb::reads(k) ==> keeps(crate::metallb::metallb_head(d), d, k),
{
    let operation = crate::metallb::operation_of(d);
    let d0 = crate::metallb::without_operation(d);
    lemma_text_read(d, "op"@, "op"@, k);
    assert(grows(d0, d));
    let d1 = d0.text_read("level"@, "level"@);
    lemma_text_read(d0, "level"@, "level"@, k);
    let d2 = crate::extract::with_timestamp_key(d1, "ts"@, "ts"@);
    lemma_timestamp_key(d1, "ts"@, "ts"@, k);
    assert(grows(d2, d));
    let action = lookup(d2.other, "action"@);
    let d3 = d2.without("action"@);
    let msg = crate::json::string_at(d3.other, "msg"@);
    let d4 = d3.text_read("msg"@, "msg"@);
    lemma_text_read(d3, "msg"@, "msg"@, k);
    assert(grows(d4, d));
    let d5 = crate::metallb::with_message(d4, msg, operation, action);
    assert(grows(d5, d4) && d5.other == d4.other);
    assert(d5 == crate::metallb::metallb_head(d));
}

proof fn lemma_metallb_tail(
    d: FluentBitJsonView,
    operation: Option<Seq<char>>,
    level: Option<Seq<char>>,
    k: Seq<char>,
)
    ensures
        grows(crate::metallb::metallb_tail(d, operation, level), d),
        !crate::metallb::reads(k) ==> keeps(crate::metallb::metallb_tail(d, operation, level), d, k),
{
    let d1 = d.with_service(
        crate::model::ecs::ServiceView { type_val: Some("metallb"@), ..d.service_or_empty() },
    );
    let d2a = d1.with_event(crate::metallb::event_with(d1.event_or_empty(), operation, level));
    assert(grows(d2a, d) && d2a.other == d.other);
    let d2 = crate::metallb::with_operation_kept(d2a, operation);
    assert(grows(d2, d) && d2.other == d.other);
    let caller = crate::extract::caller_of(d2);
    let d3 = crate::extract::without_caller(d2);
    lemma_without_caller(d2, k);
    let logger = crate::json::string_at(d3.other, "logger"@);
    let d4 = d3.text_read("logger"@, "logger"@);
    lemma_text_read(d3, "logger"@, "logger"@, k);
    assert(grows(d4, d));
    let l = crate::etcd::log_with(d4.log_or_empty(), level, caller);
    let d5 = d4.with_log(
        match logger {
            Some(logger) => crate::model::ecs::LogView { logger: Some(logger), ..l },
            None => l,
        },
    );
    let protocol = crate::json::string_at(d5.other, "protocol"@);
    let d6 = d5.text_read("protocol"@, "protocol"@);
    lemma_text_read(d5, "protocol"@, "protocol"@, k);
    assert(grows(d6, d));
    let d7 = match protocol {
        Some(p) => d6.with_network(
            crate::model::ecs::NetworkView { protocol: Some(p), ..d6.network_or_empty() },
        ),
        None => d6,
    };
    assert(d7 == crate::metallb::metallb_tail(d, operation, level));
}

proof fn lemma_metallb_fields(d: FluentBitJsonView, k: Seq<char>)
    ensures
        grows(crate::metallb::metallb_fields(d), d),
        !crate::metallb::reads(k) ==> keeps(crate::metallb::metallb_fields(d), d, k),
{
    lemma_metallb_head(d, k);
    lemma_metallb_tail(
        crate::metallb::metallb_head(d),
        crate::metallb::operation_of(d),
        crate::metallb::level_of(d),
        k,
    );
}

/// A MetalLB record keeps every key that the converter does not know, with its
/// value.
pub proof fn law_metallb_keeps_unknown_keys(d: FluentBitJsonView, key: Seq<char>)
    requires
        !crate::metallb::reads(key),
        !crate::metallb::kept_keys().contains(key),
    ensures
        lookup(crate::metallb::metallb_converted(d).other, key) == lookup(d.other, key),
{
    lemma_metallb_fields(d, key);
    lemma_moved_all(crate::metallb::metallb_fields(d), crate::metallb::kept_keys(), key);
}

/// A record of the dashboard's scraper keeps every key that the converter does
/// not know, with its value.
pub proof fn law_dashboard_keeps_unknown_keys(d: FluentBitJsonView, key: Seq<char>)
    requires
        !crate::kubernetes_dashboard::reads(key),
    ensures
        lookup(crate::kubernetes_dashboard::dashboard_converted(d).other, key) == lookup(
            d.other,
            key,
        ),
{
}

/// No key that the etcd converter moves to `misc` is one that it reads into a
/// field.
pub proof fn lemma_etcd_keys_apart(key: Seq<char>)
    requires
        crate::etcd::kept_keys().contains(key),
    ensures
        !crate::etcd::reads(key),
{
    reveal_strlit("level");
    reveal_strlit("ts");
    reveal_strlit("msg");
    reveal_strlit("took");
    reveal_strlit("caller");
    reveal_strlit("hash");
    reveal_strlit("compact-index");
    reveal_strlit("compact-revision");
    reveal_strlit("expected-duration");
    reveal_strlit("prefix");
    reveal_strlit("request");
    reveal_strlit("response");
    reveal_strlit("revision");
    let keys = crate::etcd::kept_keys();
    let i = choose|i: int| 0 <= i < keys.len() && keys[i] == key;
    assert(key == keys[i]);
    assert(keys.len() == 8);
    assert(key.len() > 0);
    assert(key[0] == 'h' || key[0] == 'c' || key[0] == 'e' || key[0] == 'p' || key[0] == 'r');
    if key[0] == 'c' {
        assert(key.len() > 6);
    }
}

/// An etcd record loses nothing of a key that the converter knows but has no
/// field for: the key leaves the unclaimed keys and its value is in `misc`.
pub proof fn law_etcd_notes_known_keys(d: FluentBitJsonView, took: Option<u64>, key: Seq<char>)
    requires
        crate::etcd::kept_keys().contains(key),
    ensures
        lookup(crate::etcd::etcd_converted(d, took).other, key) is None,
        lookup(d.other, key) matches Some(v) ==> crate::etcd::etcd_converted(
            d,
            took,
        ).misc.contains(labelled(key, plain_text(v))),
{
    lemma_etcd_keys_apart(key);
    lemma_moved_all_notes_value(crate::etcd::etcd_fields(d, took), crate::etcd::kept_keys(), key);
}

/// No key that the MetalLB converter moves to `misc` is one that it reads into
/// a field.
pub proof fn lemma_metallb_keys_apart(key: Seq<char>)
    requires
        crate::metallb::kept_keys().contains(key),
    ensures
        !crate::metallb::reads(key),
{
    reveal_strlit("op");
    reveal_strlit("level");
    reveal_strlit("ts");
    reveal_strlit("action");
    reveal_strlit("msg");
    reveal_strlit("caller");
    reveal_strlit("logger");
    reveal_strlit("protocol");
    reveal_strlit("ips");
    reveal_strlit("interface");
    reveal_strlit("pool");
    reveal_strlit("controller");
    reveal_strlit("name");
    reveal_strlit("gvk");
    reveal_strlit("IPAdvertisement");
    reveal_strlit("service");
    reveal_strlit("localIfs");
    reveal_strlit("reason");
    reveal_strlit("expected");
    reveal_strlit("joined");
    let keys = crate::metallb::kept_keys();
    let i = choose|i: int| 0 <= i < keys.len() && keys[i] == key;
    assert(key == keys[i]);
    assert(keys.len() == 12);
    assert(key.len() > 2);
    assert(key[1] == 'p' || key[1] == 'n' || key[1] == 'o' || key[1] == 'a' || key[1] == 'v'
        || key[1] == 'P' || key[1] == 'e' || key[1] == 'x');
    assert(key[2] == 's' || key[2] == 't' || key[2] == 'o' || key[2] == 'n' || key[2] == 'm'
        || key[2] == 'k' || key[2] == 'A' || key[2] == 'r' || key[2] == 'c' || key[2] == 'a'
        || key[2] == 'p' || key[2] == 'i');
}

/// A MetalLB record loses nothing of a key that the converter knows but has no
/// field for: the key leaves the unclaimed keys and its value is in `misc`.
pub proof fn law_metallb_notes_known_keys(d: FluentBitJsonView, key: Seq<char>)
    requires
        crate::metallb::kept_keys().contains(key),
    ensures
        lookup(crate::metallb::metallb_converted(d).other, key) is None,
        lookup(d.other, key) matches Some(v) ==> crate::metallb::metallb_converted(
            d,
        ).misc.contains(labelled(key, plain_text(v))),
{
    lemma_metallb_keys_apart(key);
    lemma_metallb_fields(d, key);
    lemma_moved_all_notes_value(crate::metallb::metallb_fields(d), crate::metallb::kept_keys(), key);
}

/// The unclaimed keys are what they were, and `misc` and the categories and
/// types of the event have only grown.
pub open spec fn carries(after: FluentBitJsonView, before: FluentBitJsonView) -> bool {
    after.other == before.other && grows(after, before)
}

/// The Postfix converter reads the line and nothing else: the unclaimed keys are
/// what they were, and nothing is lost from `misc` or from the categories and
/// types of the event.
pub proof fn law_postfix_keeps_leftovers(d: FluentBitJsonView, arrival: Timestamp)
    ensures
        carries(crate::postfix::postfix_converted(d, arrival), d),
{
    lemma_postfix_carries(d, arrival);
}

/// The last pass takes two keys from the unclaimed keys and no other: `stream`
/// and `_p`.
pub proof fn law_last_pass_takes_two_keys(d: FluentBitJsonView, arrival: Timestamp)
    ensures
        finalized(d, arrival).other == d.other.remove("stream"@).remove("_p"@),
{
}

/// Writing the Kubernetes metadata to the schema touches neither the unclaimed
/// keys nor `misc` nor the event.
pub proof fn law_normalizer_keeps_leftovers(d: FluentBitJsonView)
    ensures
        normalized(d).other == d.other,
        normalized(d).misc == d.misc,
        normalized(d).event == d.event,
{
}

/// A key that the converter of the record's application does not know, and that
/// is not one of the two that the last pass drops, is still among the unclaimed
/// keys at the end, with its value.
pub proof fn law_unknown_keys_stay(
    d: FluentBitJsonView,
    arrival: Timestamp,
    took: Option<u64>,
    key: Seq<char>,
)
    requires
        !claims(application_of(d), key),
        !settles(key),
    ensures
        lookup(converted(d, arrival, took).other, key) == lookup(d.other, key),
{
    let app = application_of(d);
    let a = app_converted(d, app, arrival, took);
    assert(lookup(a.other, key) == lookup(d.other, key)) by {
        match app {
            Some(Application::Metallb) => {
                law_metallb_keeps_unknown_keys(d, key);
            },
            Some(Application::Etcd) => {
                law_etcd_keeps_unknown_keys(d, took, key);
            },
            Some(Application::Postfix) => {
                law_postfix_keeps_leftovers(d, arrival);
            },
            Some(Application::KubernetesDashboardMetricsScraper) => {
                law_dashboard_keeps_unknown_keys(d, key);
            },
            None => {},
        }
    }
    law_normalizer_keeps_leftovers(a);
    law_last_pass_takes_two_keys(normalized(a), arrival);
}

/// The metadata is consumed once and for all: a normalized record holds none,
/// and normalizing it again changes nothing.
pub proof fn law_metadata_is_consumed(d: FluentBitJsonView)
    ensures
        normalized(d).kubernetes is None,
        normalized(normalized(d)) == normalized(d),
{
}

/// A converted record holds no Kubernetes metadata.
pub proof fn law_converted_record_has_no_metadata(
    d: FluentBitJsonView,
    arrival: Timestamp,
    took: Option<u64>,
)
    ensures
        converted(d, arrival, took).kubernetes is None,
{
}

/// A record whose metadata names no known application runs through no
/// converter: it is normalized and settled, and that is all.
pub proof fn law_unknown_application_runs_no_converter(
    d: FluentBitJsonView,
    arrival: Timestamp,
    took: Option<u64>,
)
    requires
        application_of(d) is None,
    ensures
        converted(d, arrival, took) == finalized(normalized(d), arrival),
{
}

/// The year of a syslog line: a line of December that arrives in January is of
/// the year before its arrival, and every other line is of the year of its
/// arrival.
pub proof fn law_year_of_syslog_line(month: u32, arrival_year: i32, arrival_month: u32)
    ensures
        month == 12 && arrival_month == 1 ==> crate::postfix::inferred_year(
            month,
            arrival_year,
            arrival_month,
        ) == arrival_year - 1,
        !(month == 12 && arrival_month == 1) ==> crate::postfix::inferred_year(
            month,
            arrival_year,
            arrival_month,
        ) == arrival_year,
{
}

/// The instant of a syslog timestamp is the UTC instant of its fields in the
/// inferred year, where the arrival has a calendar date.
pub proof fn law_date_of_syslog_line(
    line: Seq<char>,
    fields: crate::grammar::postfix::TimeFields,
    arrival: Timestamp,
)
    requires
        civil_year(arrival) is Some,
        civil_month(arrival) is Some,
    ensures
        crate::postfix::date_of(line, fields, arrival) == utc_instant(
            crate::postfix::inferred_year(
                crate::postfix::month_number(fields.month.of(line)),
                civil_year(arrival)->0,
                civil_month(arrival)->0,
            ) as i32,
            crate::postfix::month_number(fields.month.of(line)),
            crate::postfix::number_or(fields.day.of(line), 0),
            crate::postfix::number_or(fields.hour.of(line), 1000),
            crate::postfix::number_or(fields.minute.of(line), 1000),
            crate::postfix::number_or(fields.second.of(line), 1000),
        ),
{
}

/// The severities of etcd: the four level names, and nothing for any other
/// text.
pub proof fn law_etcd_severities(level: Seq<char>)
    ensures
        crate::etcd::severity_of("debug"@) == Some(100u32),
        crate::etcd::severity_of("info"@) == Some(200u32),
        crate::etcd::severity_of("warn"@) == Some(300u32),
        crate::etcd::severity_of("error"@) == Some(400u32),
        level != "debug"@ && level != "info"@ && level != "warn"@ && level != "error"@
            ==> crate::etcd::severity_of(level) is None,
{
    reveal_strlit("debug");
    assert("debug"@.len() == 5 && "debug"@[0] == 'd');
    reveal_strlit("info");
    assert("info"@.len() == 4 && "info"@[0] == 'i');
    reveal_strlit("warn");
    assert("warn"@.len() == 4 && "warn"@[0] == 'w');
    reveal_strlit("error");
    assert("error"@.len() == 5 && "error"@[0] == 'e');
}

/// The severities of MetalLB: the four level names, and nothing for any other
/// text.
pub proof fn law_metallb_severities(level: Seq<char>)
    ensures
        crate::metallb::severity_of("debug"@) == Some(100u32),
        crate::metallb::severity_of("info"@) == Some(200u32),
        crate::metallb::severity_of("warn"@) == Some(300u32),
        crate::metallb::severity_of("error"@) == Some(400u32),
        level != "debug"@ && level != "info"@ && level != "warn"@ && level != "error"@
            ==> crate::metallb::severity_of(level) is None,
{
    reveal_strlit("debug");
    assert("debug"@.len() == 5 && "debug"@[0] == 'd');
    reveal_strlit("info");
    assert("info"@.len() == 4 && "info"@[0] == 'i');
    reveal_strlit("warn");
    assert("warn"@.len() == 4 && "warn"@[0] == 'w');
    reveal_strlit("error");
    assert("error"@.len() == 5 && "error"@[0] == 'e');
}

/// The severities of Keycloak: the six level names, and nothing for any other
/// text.
pub proof fn law_keycloak_severities(level: Seq<char>)
    ensures
        crate::keycloak::severity_of("TRACE"@) == Some(50u32),
        crate::keycloak::severity_of("DEBUG"@) == Some(100u32),
        crate::keycloak::severity_of("INFO"@) == Some(200u32),
        crate::keycloak::severity_of("WARN"@) == Some(300u32),
        crate::keycloak::severity_of("ERROR"@) == Some(400u32),
        crate::keycloak::severity_of("FATAL"@) == Some(500u32),
        level != "TRACE"@ && level != "DEBUG"@ && level != "INFO"@ && level != "WARN"@ && level
            != "ERROR"@ && level != "FATAL"@ ==> crate::keycloak::severity_of(level) is None,
{
    reveal_strlit("TRACE");
    assert("TRACE"@.len() == 5 && "TRACE"@[0] == 'T');
    reveal_strlit("DEBUG");
    assert("DEBUG"@.len() == 5 && "DEBUG"@[0] == 'D');
    reveal_strlit("INFO");
    assert("INFO"@.len() == 4 && "INFO"@[0] == 'I');
    reveal_strlit("WARN");
    assert("WARN"@.len() == 4 && "WARN"@[0] == 'W');
    reveal_strlit("ERROR");
    assert("ERROR"@.len() == 5 && "ERROR"@[0] == 'E');
    reveal_strlit("FATAL");
    assert("FATAL"@.len() == 5 && "FATAL"@[0] == 'F');
}

/// The severities of the dashboard's scraper: the four level names, and nothing
/// for any other text.
pub proof fn law_dashboard_severities(level: Seq<char>)
    ensures
        crate::kubernetes_dashboard::severity_of("info"@) == Some(200u32),
        crate::kubernetes_dashboard::severity_of("warning"@) == Some(300u32),
        crate::kubernetes_dashboard::severity_of("error"@) == Some(400u32),
        crate::kubernetes_dashboard::severity_of("fatal"@) == Some(500u32),
        level != "info"@ && level != "warning"@ && level != "error"@ && level != "fatal"@
            ==> crate::kubernetes_dashboard::severity_of(level) is None,
{
    reveal_strlit("info");
    assert("info"@.len() == 4 && "info"@[0] == 'i');
    reveal_strlit("warning");
    assert("warning"@.len() == 7 && "warning"@[0] == 'w');
    reveal_strlit("error");
    assert("error"@.len() == 5 && "error"@[0] == 'e');
    reveal_strlit("fatal");
    assert("fatal"@.len() == 5 && "fatal"@[0] == 'f');
}

/// The severity of a Postfix message is a matter of its warning mark alone:
/// 300 with the mark, 200 without it.
pub proof fn law_postfix_severities(d: FluentBitJsonView, warning: bool)
    ensures
        crate::postfix::with_log_level(d, warning).event_or_empty().severity == Some(
            if warning {
                300u32
            } else {
                200u32
            },
        ),
{
}

proof fn lemma_pairs_keep_leftovers(
    d: FluentBitJsonView,
    line: Seq<char>,
    pairs: Seq<crate::grammar::keycloak::KeyValue>,
)
    ensures
        carries(crate::keycloak::with_pairs(d, line, pairs), d),
    decreases pairs.len(),
{
    if pairs.len() > 0 {
        let next = crate::keycloak::with_pair(
            d,
            pairs[0].key.of(line),
            crate::keycloak::unmasked(pairs[0].value.of(line)),
        );
        assert(carries(next, d));
        lemma_pairs_keep_leftovers(next, line, pairs.skip(1));
    }
}

/// Reading the event line touches no unclaimed key and loses nothing.
pub proof fn lemma_event_line_keeps_leftovers(d: FluentBitJsonView)
    ensures
        carries(crate::keycloak::with_event_line(d), d),
{
    match d.message {
        Some(m) => match crate::grammar::keycloak::event_log(m) {
            Some(pairs) => {
                lemma_pairs_keep_leftovers(d, m, pairs);
            },
            None => {},
        },
        None => {},
    }
}

proof fn lemma_keycloak_fields_keep(d: FluentBitJsonView, key: Seq<char>)
    requires
        !crate::keycloak::reads(key),
    ensures
        lookup(crate::keycloak::keycloak_fields(d).other, key) == lookup(d.other, key),
{
    reveal(crate::keycloak::with_log_fields);
    reveal(crate::keycloak::with_process_fields);
    reveal(crate::keycloak::with_host_fields);
    let a = crate::keycloak::with_log_fields(d);
    assert(lookup(a.other, key) == lookup(d.other, key));
    let b = crate::keycloak::with_process_fields(a);
    assert(lookup(b.other, key) == lookup(a.other, key));
}

/// A Keycloak record keeps every key that the converter does not know, with its
/// value.
pub proof fn law_keycloak_keeps_unknown_keys(d: FluentBitJsonView, key: Seq<char>)
    requires
        !crate::keycloak::reads(key),
        !crate::keycloak::kept_keys().contains(key),
    ensures
        lookup(crate::keycloak::keycloak_converted(d).other, key) == lookup(d.other, key),
{
    lemma_keycloak_fields_keep(d, key);
    let f = crate::keycloak::keycloak_fields(d);
    lemma_moved_all_keeps_other_keys(f, crate::keycloak::kept_keys(), key);
    lemma_event_line_keeps_leftovers(crate::keycloak::keycloak_leftovers(f));
}

/// No key that the Keycloak converter moves to `misc` is one that it reads into
/// a field.
pub proof fn lemma_keycloak_keys_apart(key: Seq<char>)
    requires
        crate::keycloak::kept_keys().contains(key),
    ensures
        !crate::keycloak::reads(key),
{
    reveal_strlit("level");
    reveal_strlit("timestamp");
    reveal_strlit("sequence");
    reveal_strlit("loggerName");
    reveal_strlit("processName");
    reveal_strlit("processId");
    reveal_strlit("threadName");
    reveal_strlit("threadId");
    reveal_strlit("hostName");
    reveal_strlit("mdc");
    reveal_strlit("ndc");
    reveal_strlit("loggerClassName");
    let keys = crate::keycloak::kept_keys();
    let i = choose|i: int| 0 <= i < keys.len() && keys[i] == key;
    assert(key == keys[i]);
    assert(keys.len() == 3);
    assert(key.len() == 3 || key.len() == 15);
}

/// A Keycloak record loses nothing of a key that the converter knows but has no
/// field for: the key leaves the unclaimed keys and its value is in `misc`.
pub proof fn law_keycloak_notes_known_keys(d: FluentBitJsonView, key: Seq<char>)
    requires
        crate::keycloak::kept_keys().contains(key),
    ensures
        lookup(crate::keycloak::keycloak_converted(d).other, key) is None,
        lookup(d.other, key) matches Some(v) ==> crate::keycloak::keycloak_converted(
            d,
        ).misc.contains(labelled(key, plain_text(v))),
{
    lemma_keycloak_keys_apart(key);
    lemma_keycloak_fields_keep(d, key);
    let f = crate::keycloak::keycloak_fields(d);
    lemma_moved_all_notes_value(f, crate::keycloak::kept_keys(), key);
    lemma_event_line_keeps_leftovers(crate::keycloak::keycloak_leftovers(f));
}

/// `longer` starts with all of `shorter`.
pub open spec fn extends(longer: Seq<Seq<char>>, shorter: Seq<Seq<char>>) -> bool {
    shorter.len() <= longer.len() && forall|i: int|
        0 <= i < shorter.len() ==> longer[i] == shorter[i]
}

proof fn lemma_etcd_fields(d: FluentBitJsonView, took: Option<u64>, k: Seq<char>)
    ensures
        grows(crate::etcd::etcd_fields(d, took), d),
        !crate::etcd::reads(k) ==> keeps(crate::etcd::etcd_fields(d, took), d, k),
        extends(
            crate::etcd::etcd_fields(d, took).misc,
            crate::extract::with_timestamp_key(d.text_read("level"@, "level"@), "ts"@, "ts"@).misc,
        ),
{
    let level = crate::json::string_at(d.other, "level"@);
    let d1 = d.text_read("level"@, "level"@);
    lemma_text_read(d, "level"@, "level"@, k);
    let d2 = crate::extract::with_timestamp_key(d1, "ts"@, "ts"@);
    lemma_timestamp_key(d1, "ts"@, "ts"@, k);
    assert(grows(d2, d));
    let msg = crate::json::string_at(d2.other, "msg"@);
    let d3 = d2.text_read("msg"@, "msg"@);
    lemma_text_read(d2, "msg"@, "msg"@, k);
    let d4 = match msg {
        Some(m) => d3.with_message(m),
        None => d3,
    };
    let d5 = d4.with_service(
        crate::model::ecs::ServiceView { type_val: Some("etcd"@), ..d4.service_or_empty() },
    );
    assert(grows(d5, d));
    assert(extends(d5.misc, d2.misc));
    let took_text = crate::json::string_at(d5.other, "took"@);
    let d6 = d5.text_read("took"@, "took"@);
    lemma_text_read(d5, "took"@, "took"@, k);
    assert(extends(d6.misc, d2.misc));
    let e = d6.event_or_empty();
    let d7 = d6.with_event(
        crate::model::ecs::EventView {
            kind: Some("event"@),
            module: Some("etcd"@),
            category: e.category.push("database"@),
            severity: match level {
                Some(l) => crate::etcd::severity_of(l),
                None => e.severity,
            },
            duration: match took_text {
                Some(_) => took,
                None => e.duration,
            },
            ..e
        },
    );
    assert(grows(d7, d));
    assert(extends(d7.misc, d2.misc));
    let caller = crate::extract::caller_of(d7);
    let d8 = crate::extract::without_caller(d7);
    lemma_without_caller(d7, k);
    assert(extends(d8.misc, d2.misc));
    let d9 = d8.with_log(crate::etcd::log_with(d8.log_or_empty(), level, caller));
    assert(grows(d9, d));
    assert(extends(d9.misc, d2.misc));
    assert(d9 == crate::etcd::etcd_fields(d, took));
}

proof fn lemma_dashboard_grows(d: FluentBitJsonView)
    ensures
        grows(crate::kubernetes_dashboard::dashboard_converted(d), d),
        extends(
            crate::kubernetes_dashboard::dashboard_converted(d).misc,
            crate::extract::with_timestamp_key(
                d.text_read("level"@, "level"@),
                "time"@,
                "time"@,
            ).misc,
        ),
{
    let k = Seq::<char>::empty();
    let level = crate::json::string_at(d.other, "level"@);
    let d1 = d.text_read("level"@, "level"@);
    lemma_text_read(d, "level"@, "level"@, k);
    let d2 = crate::extract::with_timestamp_key(d1, "time"@, "time"@);
    lemma_timestamp_key(d1, "time"@, "time"@, k);
    assert(grows(d2, d));
    let msg = lookup(d2.other, "msg"@);
    let d3 = d2.without("msg"@);
    let d4 = match msg {
        Some(v) => d3.with_message(crate::kubernetes::flat_text(v)),
        None => d3,
    };
    assert(grows(d4, d) && extends(d4.misc, d2.misc));
    let e = d4.event_or_empty();
    let d5 = d4.with_event(
        crate::model::ecs::EventView {
            module: Some("kubernetes_dashboard"@),
            severity: match level {
                Some(l) => crate::kubernetes_dashboard::severity_of(l),
                None => e.severity,
            },
            ..e
        },
    );
    assert(grows(d5, d) && extends(d5.misc, d2.misc));
    let l = d5.log_or_empty();
    let d6 = d5.with_log(
        match level {
            Some(level) => crate::model::ecs::LogView { level: Some(level), ..l },
            None => l,
        },
    );
    assert(grows(d6, d) && extends(d6.misc, d2.misc));
    assert(d6 == crate::kubernetes_dashboard::dashboard_converted(d));
}

proof fn lemma_app_grows(
    d: FluentBitJsonView,
    app: Option<Application>,
    arrival: Timestamp,
    took: Option<u64>,
)
    ensures
        grows(app_converted(d, app, arrival, took), d),
{
    let k = Seq::<char>::empty();
    match app {
        Some(Application::Metallb) => {
            lemma_metallb_fields(d, k);
            lemma_moved_all(crate::metallb::metallb_fields(d), crate::metallb::kept_keys(), k);
        },
        Some(Application::Etcd) => {
            lemma_etcd_fields(d, took, k);
            lemma_moved_all(crate::etcd::etcd_fields(d, took), crate::etcd::kept_keys(), k);
        },
        Some(Application::Postfix) => {
            law_postfix_keeps_leftovers(d, arrival);
            lemma_postfix_carries(d, arrival);
        },
        Some(Application::KubernetesDashboardMetricsScraper) => {
            lemma_dashboard_grows(d);
        },
        None => {},
    }
}

/// Conversion only ever adds to `misc`: every entry that a record brings is
/// still there at the end, in its place.
pub proof fn law_misc_only_grows(d: FluentBitJsonView, arrival: Timestamp, took: Option<u64>)
    ensures
        extends(converted(d, arrival, took).misc, d.misc),
{
    let a = app_converted(d, application_of(d), arrival, took);
    lemma_app_grows(d, application_of(d), arrival, took);
    law_normalizer_keeps_leftovers(a);
    let n = normalized(a);
    assert(extends(finalized(n, arrival).misc, n.misc));
}

/// A line that starts with timestamp, host, process and pid is a Postfix line,
/// whatever its message: no shape of a message can make the line fail.
pub proof fn law_skeleton_always_parses(s: Seq<char>)
    requires
        crate::grammar::postfix::has_skeleton(s),
    ensures
        crate::grammar::postfix::postfix_log(s) is Some,
{
}

proof fn lemma_smtpd_message_ends_the_line(s: Seq<char>, at: usize)
    requires
        s.len() <= usize::MAX,
    ensures
        crate::grammar::postfix::smtpd_message(s, at).1 == s.len(),
{
}

proof fn lemma_anvil_message_ends_the_line(s: Seq<char>, at: usize)
    requires
        s.len() <= usize::MAX,
    ensures
        crate::grammar::postfix::anvil_message(s, at).1 == s.len(),
{
}

proof fn lemma_process_message_ends_the_line(s: Seq<char>, at: usize)
    requires
        s.len() <= usize::MAX,
    ensures
        crate::grammar::postfix::process_message(s, at) matches Some(m) ==> m.3 == s.len(),
{
    assert(crate::grammar::postfix::process_smtpd(s, at) matches Some(m) ==> m.3 == s.len()) by {
        match crate::grammar::postfix::header_at(s, at, "postfix/smtpd"@) {
            Some((pid, a)) => {
                lemma_smtpd_message_ends_the_line(
                    s,
                    crate::grammar::postfix::log_level_at(s, a).1,
                );
            },
            None => {},
        }
    }
    assert(crate::grammar::postfix::process_anvil(s, at) matches Some(m) ==> m.3 == s.len()) by {
        match crate::grammar::postfix::header_at(s, at, "postfix/anvil"@) {
            Some((pid, a)) => {
                lemma_anvil_message_ends_the_line(s, a);
            },
            None => {},
        }
    }
    assert(crate::grammar::postfix::process_postfix_script(s, at) matches Some(m) ==> m.3
        == s.len());
    assert(crate::grammar::postfix::process_master(s, at) matches Some(m) ==> m.3 == s.len());
    assert(crate::grammar::postfix::process_main(s, at) matches Some(m) ==> m.3 == s.len());
    assert(crate::grammar::postfix::process_other(s, at) matches Some(m) ==> m.3 == s.len());
}

/// A Postfix line is read to its end: its message is all that follows the pid
/// and the warning mark.
pub proof fn law_postfix_line_is_read_to_its_end(s: Seq<char>)
    requires
        s.len() <= usize::MAX,
    ensures
        crate::grammar::postfix::postfix_log(s) matches Some(log) ==> log.message.end == s.len(),
{
    match crate::grammar::postfix::timestamp_at(s, 0) {
        Some((_, a)) => match crate::grammar::lit(s, a, " "@) {
            Some(b) => match crate::grammar::some_run(s, b, crate::grammar::Class::NotSpace) {
                Some(c) => match crate::grammar::lit(s, c, " "@) {
                    Some(d) => {
                        lemma_process_message_ends_the_line(s, d);
                    },
                    None => {},
                },
                None => {},
            },
            None => {},
        },
        None => {},
    }
}

/// The categories and types of the event of `after` start with all of those of
/// `before`.
pub open spec fn tags_grow(after: FluentBitJsonView, before: FluentBitJsonView) -> bool {
    extends(after.event_or_empty().category, before.event_or_empty().category) && extends(
        after.event_or_empty().type_val,
        before.event_or_empty().type_val,
    )
}

proof fn lemma_client_pairs_carry(d: FluentBitJsonView, line: Seq<char>, at: usize)
    ensures
        carries(crate::postfix::with_client_pairs(d, line, at), d),
    decreases line.len() - at,
{
    match crate::grammar::postfix::pair_at(line, at) {
        Some((pair, e)) => {
            if at < e <= line.len() {
                lemma_client_pairs_carry(
                    crate::postfix::with_client_pair(d, pair.key.of(line), pair.value.of(line)),
                    line,
                    e,
                );
            }
        },
        None => {},
    }
}

proof fn lemma_smtpd_carries(
    d: FluentBitJsonView,
    line: Seq<char>,
    shape: crate::grammar::postfix::SmtpdShape,
    host: Seq<char>,
)
    ensures
        carries(crate::postfix::with_smtpd_shape(d, line, shape, host), d),
{
    match shape {
        crate::grammar::postfix::SmtpdShape::MailOpenStream { queue_id, client, pairs } => {
            let d1 = crate::postfix::classified(d, None, Some("connection"@), None);
            let d2 = crate::postfix::over_smtp(crate::postfix::with_outcome(d1, "success"@));
            let d3 = crate::postfix::with_queue_id(d2, queue_id.of(line), host);
            let d4 = crate::postfix::with_peer(d3, client.hostname.of(line), client.ip.of(line));
            lemma_client_pairs_carry(d4, line, pairs.start);
        },
        _ => {},
    }
}

proof fn lemma_common_carries(
    d: FluentBitJsonView,
    line: Seq<char>,
    log: crate::grammar::postfix::PostfixLog,
    warning: bool,
)
    ensures
        carries(crate::postfix::with_common(d, line, log, warning), d),
{
}

proof fn lemma_process_message_carries(
    d: FluentBitJsonView,
    line: Seq<char>,
    log: crate::grammar::postfix::PostfixLog,
    arrival: Timestamp,
)
    ensures
        carries(crate::postfix::with_process_message(d, line, log, arrival), d),
{
    match log.process {
        crate::grammar::postfix::ProcessMessage::Smtpd { warning, shape } => {
            let d4 = crate::postfix::with_process_name(d, "smtpd"@);
            let d5 = crate::postfix::classified(d4, Some("email"@), None, None);
            assert(carries(d5, d));
            let d6 = crate::postfix::with_common(d5, line, log, warning);
            lemma_common_carries(d5, line, log, warning);
            lemma_smtpd_carries(d6, line, shape, log.host.of(line));
        },
        crate::grammar::postfix::ProcessMessage::PostfixScript { warning, shape } => {
            let d4 = crate::postfix::with_process_name(d, "postfix-script"@);
            let d5 = crate::postfix::classified(d4, Some("email"@), None, None);
            assert(carries(d5, d));
            lemma_common_carries(d5, line, log, warning);
        },
        crate::grammar::postfix::ProcessMessage::Anvil { shape } => {
            let d1 = crate::postfix::with_process_name(d, "anvil"@);
            let d2 = d1.with_event(
                crate::model::ecs::EventView { kind: Some("metric"@), ..d1.event_or_empty() },
            );
            let d3 = crate::postfix::classified(d2, Some("email"@), None, None);
            assert(carries(d3, d));
            let d4 = crate::postfix::with_severity(d3, 100);
            let d5 = crate::postfix::with_message(
                crate::postfix::with_pid(d4, log.pid.of(line)),
                log.message.of(line),
            );
            assert(carries(d5, d));
        },
        crate::grammar::postfix::ProcessMessage::Master { warning, shape } => {
            let d4 = crate::postfix::with_process_name(d, "master"@);
            let d5 = crate::postfix::classified(d4, Some("email"@), None, None);
            assert(carries(d5, d));
            lemma_common_carries(d5, line, log, warning);
        },
        crate::grammar::postfix::ProcessMessage::Main { warning } => {
            let d5 = crate::postfix::classified(d, Some("email"@), None, None);
            assert(carries(d5, d));
            lemma_common_carries(d5, line, log, warning);
        },
        crate::grammar::postfix::ProcessMessage::Other { name, warning } => {
            let d5 = crate::postfix::with_process_name(d, name.of(line));
            lemma_common_carries(d5, line, log, warning);
        },
    }
}

proof fn lemma_parsed_carries(
    d: FluentBitJsonView,
    line: Seq<char>,
    log: crate::grammar::postfix::PostfixLog,
    arrival: Timestamp,
)
    ensures
        carries(crate::postfix::with_parsed(d, line, log, arrival), d),
{
    let d1 = d.with_event(
        crate::model::ecs::EventView {
            module: Some("postfix"@),
            original: Some(line),
            ..d.event_or_empty()
        },
    );
    let d2 = d1.with_service(
        crate::model::ecs::ServiceView { type_val: Some("postfix"@), ..d1.service_or_empty() },
    );
    let d3 = FluentBitJsonView { timestamp: crate::postfix::date_of(line, log.time, arrival), ..d2 };
    assert(carries(d3, d));
    lemma_process_message_carries(d3, line, log, arrival);
}

proof fn lemma_unparsed_carries(d: FluentBitJsonView, line: Seq<char>)
    ensures
        carries(crate::postfix::with_line_unparsed(d, line), d),
        crate::postfix::with_line_unparsed(d, line).message == Some(line),
        crate::postfix::with_line_unparsed(d, line).log == d.log,
        crate::postfix::with_line_unparsed(d, line).event_or_empty().kind == Some(
            "pipeline_error"@,
        ),
        crate::postfix::with_line_unparsed(d, line).event_or_empty().severity == Some(300u32),
        crate::postfix::with_line_unparsed(d, line).event_or_empty().outcome == Some("failure"@),
{
    let d1 = crate::postfix::with_message(d, line);
    let d2 = d1.with_error(
        crate::model::ecs::ErrorView { message: Some(line), ..d1.error_or_empty() },
    );
    assert(carries(d2, d));
    let d3 = crate::postfix::marked_failed(d2);
    assert(carries(d3, d2));
    let d4 = d3.with_service(
        crate::model::ecs::ServiceView { type_val: Some("postfix"@), ..d3.service_or_empty() },
    );
    assert(d4 == crate::postfix::with_line_unparsed(d, line));
}

proof fn lemma_missing_carries(d: FluentBitJsonView)
    ensures
        carries(crate::postfix::with_line_missing(d), d),
{
    let d1 = crate::postfix::with_message(
        d,
        "fluent-ecs postfix parser failed: no log line passed."@,
    );
    let d2 = d1.with_event(
        crate::model::ecs::EventView { module: Some("postfix"@), ..d1.event_or_empty() },
    );
    assert(carries(d2, d));
    assert(carries(crate::extract::marked_unparsed(d2), d2));
}

proof fn lemma_postfix_carries(d: FluentBitJsonView, arrival: Timestamp)
    ensures
        carries(crate::postfix::postfix_converted(d, arrival), d),
{
    match d.log_text() {
        None => {
            lemma_missing_carries(d);
        },
        Some(line) => {
            let d1 = FluentBitJsonView { log: None, ..d };
            assert(carries(d1, d));
            match crate::grammar::postfix::postfix_log(line) {
                Some(log) => {
                    lemma_parsed_carries(d1, line, log, arrival);
                },
                None => {
                    lemma_unparsed_carries(d1, line);
                },
            }
        },
    }
}

/// Conversion only ever adds to the categories and the types of the event:
/// those that a record brings are still there at the end, in their places.
pub proof fn law_event_tags_only_grow(d: FluentBitJsonView, arrival: Timestamp, took: Option<u64>)
    ensures
        tags_grow(converted(d, arrival, took), d),
{
    let a = app_converted(d, application_of(d), arrival, took);
    lemma_app_grows(d, application_of(d), arrival, took);
    let n = normalized(a);
    assert(n.event == a.event);
    assert(tags_grow(finalized(n, arrival), n));
}

/// Moving keys to `misc` leaves the event as it is.
pub proof fn lemma_moved_all_keeps_event(d: FluentBitJsonView, keys: Seq<Seq<char>>)
    ensures
        d.moved_all(keys).event == d.event,
    decreases keys.len(),
{
    if keys.len() > 0 {
        lemma_moved_all_keeps_event(d, keys.drop_last());
    }
}

/// A record of Postfix whose line is no Postfix line is passed through: the line
/// is the message, word for word, and the record is marked as a failure of the
/// pipeline at severity 300.
pub proof fn law_unparsed_postfix_line_is_passed_through(
    d: FluentBitJsonView,
    arrival: Timestamp,
    line: Seq<char>,
)
    requires
        d.log_text() == Some(line),
        crate::grammar::postfix::postfix_log(line) is None,
    ensures
        crate::postfix::postfix_converted(d, arrival).message == Some(line),
        crate::postfix::postfix_converted(d, arrival).log is None,
        crate::postfix::postfix_converted(d, arrival).event_or_empty().kind == Some(
            "pipeline_error"@,
        ),
        crate::postfix::postfix_converted(d, arrival).event_or_empty().severity == Some(300u32),
        crate::postfix::postfix_converted(d, arrival).event_or_empty().outcome == Some("failure"@),
        carries(crate::postfix::postfix_converted(d, arrival), d),
{
    let d1 = FluentBitJsonView { log: None, ..d };
    lemma_unparsed_carries(d1, line);
    lemma_postfix_carries(d, arrival);
}

/// The same at the end of the whole conversion: the last pass leaves the mark,
/// the severity and the message of such a record as they are.
pub proof fn law_unparsed_postfix_record_is_passed_through(
    d: FluentBitJsonView,
    arrival: Timestamp,
    took: Option<u64>,
    line: Seq<char>,
)
    requires
        application_of(d) == Some(Application::Postfix),
        d.log_text() == Some(line),
        crate::grammar::postfix::postfix_log(line) is None,
    ensures
        converted(d, arrival, took).message == Some(line),
        converted(d, arrival, took).event_or_empty().kind == Some("pipeline_error"@),
        converted(d, arrival, took).event_or_empty().severity == Some(300u32),
{
    law_unparsed_postfix_line_is_passed_through(d, arrival, line);
    let a = crate::postfix::postfix_converted(d, arrival);
    let n = normalized(a);
    assert(n.message == a.message && n.event == a.event && n.log == a.log);
}

/// A record of Keycloak's event logger whose message is no event line keeps its
/// message and is marked as a failure of the pipeline at severity 300.
pub proof fn law_unparsed_event_line_is_passed_through(d: FluentBitJsonView, line: Seq<char>)
    requires
        d.message == Some(line),
        crate::grammar::keycloak::event_log(line) is None,
    ensures
        crate::keycloak::with_event_line(d).message == Some(line),
        crate::keycloak::with_event_line(d).event_or_empty().kind == Some("pipeline_error"@),
        crate::keycloak::with_event_line(d).event_or_empty().severity == Some(300u32),
        crate::keycloak::with_event_line(d).event_or_empty().outcome == Some("failure"@),
{
}

/// An entry that is in `misc` before keys are moved there is in `misc`
/// afterwards.
pub proof fn lemma_moved_all_keeps_entry(
    d: FluentBitJsonView,
    keys: Seq<Seq<char>>,
    entry: Seq<char>,
)
    requires
        d.misc.contains(entry),
    ensures
        d.moved_all(keys).misc.contains(entry),
{
    lemma_moved_all_extends_misc(d, keys);
    let i = choose|i: int| 0 <= i < d.misc.len() && d.misc[i] == entry;
    assert(d.moved_all(keys).misc[i] == entry);
}

/// Moving keys to `misc` changes nothing but the unclaimed keys and `misc`.
pub proof fn lemma_moved_all_keeps_fields(d: FluentBitJsonView, keys: Seq<Seq<char>>)
    ensures
        d.moved_all(keys) == (FluentBitJsonView {
            other: d.moved_all(keys).other,
            misc: d.moved_all(keys).misc,
            ..d
        }),
    decreases keys.len(),
{
    if keys.len() > 0 {
        lemma_moved_all_keeps_fields(d, keys.drop_last());
    }
}

/// What the etcd converter reads, it keeps: a level, a message, a caller and a
/// timestamp of the right shape are in their fields afterwards, and a timestamp
/// text that names no instant is in `misc`.
pub proof fn law_etcd_keeps_what_it_reads(d: FluentBitJsonView, took: Option<u64>)
    ensures
        crate::json::string_at(d.other, "level"@) matches Some(level)
            ==> crate::etcd::etcd_converted(d, took).log_or_empty().level == Some(level),
        crate::json::string_at(d.other, "msg"@) matches Some(msg) ==> crate::etcd::etcd_converted(
            d,
            took,
        ).message == Some(msg),
        crate::json::string_at(d.other, "took"@) is Some ==> crate::etcd::etcd_converted(
            d,
            took,
        ).event_or_empty().duration == took,
        crate::json::string_at(d.other, "ts"@) matches Some(ts) ==> match crate::time::rfc3339_instant(
            ts,
        ) {
            Some(t) => crate::etcd::etcd_converted(d, took).timestamp == Some(t),
            None => crate::etcd::etcd_converted(d, took).misc.contains(labelled("ts"@, ts)),
        },
        crate::json::string_at(d.other, "caller"@) matches Some(caller)
            ==> (crate::extract::caller_parts(caller) matches Some((file, line)) ==> {
            let origin = crate::etcd::etcd_converted(d, took).log_or_empty().origin_or_empty();
            origin.file_or_empty().name == Some(file) && origin.file_or_empty().line == Some(line)
        }),
{
    reveal_strlit("level");
    reveal_strlit("ts");
    reveal_strlit("msg");
    reveal_strlit("took");
    reveal_strlit("caller");
    assert("level"@.len() == 5 && "ts"@.len() == 2 && "msg"@.len() == 3 && "took"@.len() == 4
        && "caller"@.len() == 6);
    let f = crate::etcd::etcd_fields(d, took);
    lemma_moved_all_keeps_fields(f, crate::etcd::kept_keys());
    if crate::json::string_at(d.other, "ts"@) is Some {
        let ts = crate::json::string_at(d.other, "ts"@)->0;
        if crate::time::rfc3339_instant(ts) is None {
            let entry = labelled("ts"@, ts);
            let d1 = d.text_read("level"@, "level"@);
            let d2 = crate::extract::with_timestamp_key(d1, "ts"@, "ts"@);
            let at = d2.misc.len() - 1;
            assert(d2.misc[at] == entry);
            lemma_etcd_fields(d, took, Seq::<char>::empty());
            assert(f.misc[at] == entry);
            lemma_moved_all_keeps_entry(f, crate::etcd::kept_keys(), entry);
        }
    }
}

/// What the converter of the dashboard's scraper reads, it keeps.
pub proof fn law_dashboard_keeps_what_it_reads(d: FluentBitJsonView)
    ensures
        crate::json::string_at(d.other, "level"@) matches Some(level)
            ==> crate::kubernetes_dashboard::dashboard_converted(d).log_or_empty().level == Some(
            level,
        ),
        lookup(d.other, "msg"@) matches Some(msg)
            ==> crate::kubernetes_dashboard::dashboard_converted(d).message == Some(
            crate::kubernetes::flat_text(msg),
        ),
        crate::json::string_at(d.other, "time"@) matches Some(ts) ==> match crate::time::rfc3339_instant(
            ts,
        ) {
            Some(t) => crate::kubernetes_dashboard::dashboard_converted(d).timestamp == Some(t),
            None => crate::kubernetes_dashboard::dashboard_converted(d).misc.contains(
                labelled("time"@, ts),
            ),
        },
{
    reveal_strlit("level");
    reveal_strlit("time");
    reveal_strlit("msg");
    assert("level"@.len() == 5 && "time"@.len() == 4 && "msg"@.len() == 3);
    if crate::json::string_at(d.other, "time"@) is Some {
        let ts = crate::json::string_at(d.other, "time"@)->0;
        if crate::time::rfc3339_instant(ts) is None {
            let r = crate::kubernetes_dashboard::dashboard_converted(d);
            let d1 = d.text_read("level"@, "level"@);
            let d2 = crate::extract::with_timestamp_key(d1, "time"@, "time"@);
            let at = d2.misc.len() - 1;
            assert(d2.misc[at] == labelled("time"@, ts));
            lemma_dashboard_grows(d);
            assert(r.misc[at] == labelled("time"@, ts));
        }
    }
}

/// The last pass keeps what it reads: where it names this library as the module
/// and the event has no dataset yet, the stream of the record names the dataset.
pub proof fn law_last_pass_keeps_the_stream(
    d: FluentBitJsonView,
    arrival: Timestamp,
    stream: Seq<char>,
)
    requires
        crate::json::string_at(d.other, "stream"@) == Some(stream),
        d.event_or_empty().module is None,
        d.event_or_empty().dataset is None,
    ensures
        finalized(d, arrival).event_or_empty().dataset == Some("fluent-ecs."@ + stream),
        finalized(d, arrival).event_or_empty().module == Some("fluent-ecs"@),
{
}

/// No character of `text` is a bracket.
pub open spec fn bracket_free(text: Seq<char>) -> bool {
    forall|i: int| 0 <= i < text.len() ==> crate::grammar::Class::NotBracket.holds(#[trigger] text[i])
}

/// A peer is read as it is written: where `hostname[ip]` stands in the line,
/// neither part empty nor with a bracket in it, the grammar finds exactly these
/// two parts.
pub proof fn law_peer_is_read_as_written(
    s: Seq<char>,
    at: usize,
    hostname: Seq<char>,
    ip: Seq<char>,
)
    requires
        s.len() <= usize::MAX,
        hostname.len() > 0,
        ip.len() > 0,
        bracket_free(hostname),
        bracket_free(ip),
        crate::text::is_prefix_at(s, at as int, hostname + seq!['['] + ip + seq![']']),
    ensures
        crate::grammar::postfix::peer_at(s, at) matches Some((peer, end)) && peer.hostname.of(s)
            == hostname && peer.ip.of(s) == ip && end == at + hostname.len() + ip.len() + 2,
{
    reveal_strlit("[");
    reveal_strlit("]");
    assert("["@ =~= seq!['[']);
    assert("]"@ =~= seq![']']);
    let written = hostname + seq!['['] + ip + seq![']'];
    let h = at + hostname.len();
    let a = h + 1;
    let b = a + ip.len();
    assert forall|i: int| 0 <= i < written.len() implies s[at + i] == written[i] by {
        assert(s.subrange(at as int, at + written.len())[i] == s[at + i]);
    }
    assert forall|i: int| at <= i < h implies crate::grammar::Class::NotBracket.holds(s[i]) by {
        assert(written[i - at] == hostname[i - at]);
    }
    assert(s[h as int] == '[') by {
        assert(written[hostname.len() as int] == '[');
    }
    crate::grammar::lemma_run_exact(s, at as int, h as int, crate::grammar::Class::NotBracket);
    assert(s.subrange(h as int, h + 1) =~= seq!['[']);
    assert forall|i: int| a <= i < b implies crate::grammar::Class::NotBracket.holds(s[i]) by {
        assert(written[i - at] == ip[i - a]);
    }
    assert(s[b as int] == ']') by {
        assert(written[b - at] == ']');
    }
    crate::grammar::lemma_run_exact(s, a as int, b as int, crate::grammar::Class::NotBracket);
    assert(s.subrange(b as int, b + 1) =~= seq![']']);
    assert(s.subrange(at as int, h as int) =~= hostname) by {
        assert forall|i: int| 0 <= i < hostname.len() implies s[at + i] == hostname[i] by {
            assert(written[i] == hostname[i]);
        }
    }
    assert(s.subrange(a as int, b as int) =~= ip) by {
        assert forall|i: int| 0 <= i < ip.len() implies s[a + i] == ip[i] by {
            assert(written[a - at + i] == ip[i]);
        }
    }
}

/// And a peer that the grammar finds is written in the line: its two parts,
/// neither empty nor with a bracket in it, with `[` between them and `]` after
/// them.
pub proof fn law_peer_read_is_written(s: Seq<char>, at: usize)
    requires
        at <= s.len() <= usize::MAX,
    ensures
        crate::grammar::postfix::peer_at(s, at) matches Some((peer, end)) ==> {
            &&& at <= end <= s.len()
            &&& s.subrange(at as int, end as int) == peer.hostname.of(s) + seq!['['] + peer.ip.of(
                s,
            ) + seq![']']
            &&& peer.hostname.of(s).len() > 0
            &&& peer.ip.of(s).len() > 0
            &&& bracket_free(peer.hostname.of(s))
            &&& bracket_free(peer.ip.of(s))
        },
{
    reveal_strlit("[");
    reveal_strlit("]");
    assert("["@ =~= seq!['[']);
    assert("]"@ =~= seq![']']);
    match crate::grammar::postfix::peer_at(s, at) {
        Some((peer, end)) => {
            let h = peer.hostname.end;
            let a = peer.ip.start;
            let b = peer.ip.end;
            crate::grammar::lemma_run_len_bound(s, at as int, crate::grammar::Class::NotBracket);
            crate::grammar::lemma_run_holds(s, at as int, crate::grammar::Class::NotBracket);
            assert(a == h + 1);
            crate::grammar::lemma_run_len_bound(s, a as int, crate::grammar::Class::NotBracket);
            crate::grammar::lemma_run_holds(s, a as int, crate::grammar::Class::NotBracket);
            assert(end == b + 1);
            assert(s.subrange(h as int, h + 1)[0] == '[');
            assert(s.subrange(b as int, b + 1)[0] == ']');
            assert(s.subrange(at as int, end as int) =~= peer.hostname.of(s) + seq!['[']
                + peer.ip.of(s) + seq![']']);
            assert forall|i: int| 0 <= i < peer.hostname.of(s).len() implies
                crate::grammar::Class::NotBracket.holds(#[trigger] peer.hostname.of(s)[i]) by {
                assert(peer.hostname.of(s)[i] == s[at + i]);
            }
            assert forall|i: int| 0 <= i < peer.ip.of(s).len() implies
                crate::grammar::Class::NotBracket.holds(#[trigger] peer.ip.of(s)[i]) by {
                assert(peer.ip.of(s)[i] == s[a + i]);
            }
        },
        None => {},
    }
}

/// The action of a MetalLB record is not lost: where it does not stand in as the
/// message, it is in `misc` afterwards.
pub proof fn law_metallb_keeps_the_action(d: FluentBitJsonView, action: serde_json::Value)
    requires
        lookup(d.other, "action"@) == Some(action),
    ensures
        crate::metallb::metallb_converted(d).message == Some(crate::json::json_text(action))
            || crate::metallb::metallb_converted(d).misc.contains(
            labelled("action"@, plain_text(action)),
        ),
{
    reveal_strlit("action");
    reveal_strlit("op");
    reveal_strlit("level");
    reveal_strlit("ts");
    reveal_strlit("msg");
    assert("action"@.len() == 6 && "op"@.len() == 2 && "level"@.len() == 5 && "ts"@.len() == 2
        && "msg"@.len() == 3);
    let k = "action"@;
    let operation = crate::metallb::operation_of(d);
    let d0 = crate::metallb::without_operation(d);
    lemma_text_read(d, "op"@, "op"@, k);
    let d1 = d0.text_read("level"@, "level"@);
    lemma_text_read(d0, "level"@, "level"@, k);
    let d2 = crate::extract::with_timestamp_key(d1, "ts"@, "ts"@);
    lemma_timestamp_key(d1, "ts"@, "ts"@, k);
    assert(lookup(d2.other, k) == Some(action));
    let d3 = d2.without("action"@);
    let msg = crate::json::string_at(d3.other, "msg"@);
    let d4 = d3.text_read("msg"@, "msg"@);
    let head = crate::metallb::with_message(d4, msg, operation, Some(action));
    assert(head == crate::metallb::metallb_head(d));
    let fields = crate::metallb::metallb_fields(d);
    let level = crate::metallb::level_of(d);
    lemma_metallb_tail(head, operation, level, k);
    lemma_moved_all_keeps_fields(fields, crate::metallb::kept_keys());
    if crate::metallb::action_is_message(d4, msg, operation) {
        assert(head.message == Some(crate::json::json_text(action)));
        let t1 = head.with_service(
            crate::model::ecs::ServiceView { type_val: Some("metallb"@), ..head.service_or_empty() },
        );
        let t2 = crate::metallb::with_operation_kept(
            t1.with_event(crate::metallb::event_with(t1.event_or_empty(), operation, level)),
            operation,
        );
        assert(t2.message == head.message);
        assert(fields.message == head.message);
    } else {
        let entry = labelled("action"@, plain_text(action));
        let at = head.misc.len() - 1;
        assert(head.misc[at] == entry);
        assert(fields.misc[at] == entry);
        lemma_moved_all_keeps_entry(fields, crate::metallb::kept_keys(), entry);
    }
}

} // verus!
