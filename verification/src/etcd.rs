//! The converter for etcd's structured logs.

use crate::extract::{
    caller_of, take_caller, take_timestamp, with_timestamp_key, without_caller,
};
use crate::json::string_at;
use crate::model::ecs::{EventView, LogOriginFileView, LogOriginView, LogView, ServiceView};
use crate::model::{key_texts, FluentBitJson, FluentBitJsonView};
use crate::text::{chars_of, has_prefix_at, push_text, str_eq, substring};
use vstd::prelude::*;
use vstd::string::StringExecFns;

verus! {

/// The severity that etcd's level names stand for.
pub open spec fn severity_of(level: Seq<char>) -> Option<u32> {
    if level == "debug"@ {
        Some(100u32)
    } else if level == "info"@ {
        Some(200u32)
    } else if level == "warn"@ {
        Some(300u32)
    } else if level == "error"@ {
        Some(400u32)
    } else {
        None
    }
}

/// The severity of a level of etcd, if it is one of the known levels.
pub fn convert_severity(level: &str) -> (r: Option<u32>)
    ensures
        r == severity_of(level@),
{
    if str_eq(level, "debug") {
        Some(100)
    } else if str_eq(level, "info") {
        Some(200)
    } else if str_eq(level, "warn") {
        Some(300)
    } else if str_eq(level, "error") {
        Some(400)
    } else {
        None
    }
}

/// The unit that a duration text ends in.
#[derive(Clone, Copy, Debug, PartialEq, Eq, Structural)]
pub enum DurationUnit {
    Milliseconds,
    Seconds,
}

impl DurationUnit {
    /// How many nanoseconds one unit holds.
    pub open spec fn nanos(self) -> u64 {
        match self {
            DurationUnit::Milliseconds => 1_000_000u64,
            DurationUnit::Seconds => 1_000_000_000u64,
        }
    }

    /// How many nanoseconds one unit holds.
    pub fn nanos_per_unit(&self) -> (r: u64)
        ensures
            r == self.nanos(),
    {
        match self {
            DurationUnit::Milliseconds => 1_000_000,
            DurationUnit::Seconds => 1_000_000_000,
        }
    }
}

/// Whether `text` ends in `suffix`.
pub open spec fn ends_with(text: Seq<char>, suffix: Seq<char>) -> bool {
    text.len() >= suffix.len() && text.skip(text.len() - suffix.len()) == suffix
}

/// A duration text as the number it writes and its unit: `ms` is looked for
/// first, then `s`; a text that ends in neither is no duration.
pub open spec fn duration_parts(text: Seq<char>) -> Option<(Seq<char>, DurationUnit)> {
    if ends_with(text, "ms"@) {
        Some((text.take(text.len() - 2), DurationUnit::Milliseconds))
    } else if ends_with(text, "s"@) {
        Some((text.take(text.len() - 1), DurationUnit::Seconds))
    } else {
        None
    }
}

/// Splits a duration text into the number it writes and its unit. The number is
/// returned as text: turning it into nanoseconds takes floating point, which the
/// caller does.
pub fn split_duration(duration: &str) -> (r: Option<(String, DurationUnit)>)
    ensures
        match r {
            Some((number, unit)) => duration_parts(duration@) == Some((number@, unit)),
            None => duration_parts(duration@) is None,
        },
{
    let chars = chars_of(duration);
    let ms = chars_of("ms");
    let s = chars_of("s");
    proof {
        reveal_strlit("ms");
        reveal_strlit("s");
    }
    let n = chars.len();
    if n >= 2 && has_prefix_at(chars.as_slice(), n - 2, ms.as_slice()) {
        assert(chars@.subrange(n - 2, n as int) == chars@.skip(n - 2));
        assert(chars@.subrange(0, n - 2) == chars@.take(n - 2));
        Some((substring(chars.as_slice(), 0, n - 2), DurationUnit::Milliseconds))
    } else if n >= 1 && has_prefix_at(chars.as_slice(), n - 1, s.as_slice()) {
        assert(n >= 2 ==> chars@.subrange(n - 2, n as int) == chars@.skip(n - 2));
        assert(chars@.subrange(n - 1, n as int) == chars@.skip(n - 1));
        assert(chars@.subrange(0, n - 1) == chars@.take(n - 1));
        Some((substring(chars.as_slice(), 0, n - 1), DurationUnit::Seconds))
    } else {
        assert(n >= 2 ==> chars@.subrange(n - 2, n as int) == chars@.skip(n - 2));
        assert(n >= 1 ==> chars@.subrange(n - 1, n as int) == chars@.skip(n - 1));
        None
    }
}

/// The log sub-object after the level and the caller have been written to it.
pub open spec fn log_with(
    l: LogView,
    level: Option<Seq<char>>,
    caller: Option<(Seq<char>, u32)>,
) -> LogView {
    let l = match level {
        Some(level) => LogView { level: Some(level), ..l },
        None => l,
    };
    match caller {
        Some((file, line)) => {
            let origin = l.origin_or_empty();
            let f = LogOriginFileView { name: Some(file), line: Some(line), ..origin.file_or_empty() };
            LogView { origin: Some(LogOriginView { file: Some(f), ..origin }), ..l }
        },
        None => l,
    }
}

/// The keys that the etcd converter reads into fields of the schema.
pub open spec fn reads(key: Seq<char>) -> bool {
    key == "level"@ || key == "ts"@ || key == "msg"@ || key == "took"@ || key == "caller"@
}

/// The keys that the etcd converter knows but has no field for: they go to
/// `misc`, in this order.
pub open spec fn kept_keys() -> Seq<Seq<char>> {
    seq![
        "hash"@,
        "compact-index"@,
        "compact-revision"@,
        "expected-duration"@,
        "prefix"@,
        "request"@,
        "response"@,
        "revision"@,
    ]
}

/// The record after the keys that have a field in the schema have been read.
/// `took` is the duration in nanoseconds that the record's `took` text stands
/// for, if it stands for one.
pub open spec fn etcd_fields(d: FluentBitJsonView, took: Option<u64>) -> FluentBitJsonView {
    let level = string_at(d.other, "level"@);
    let d = d.text_read("level"@, "level"@);
    let d = with_timestamp_key(d, "ts"@, "ts"@);
    let msg = string_at(d.other, "msg"@);
    let d = d.text_read("msg"@, "msg"@);
    let d = match msg {
        Some(m) => d.with_message(m),
        None => d,
    };
    let d = d.with_service(ServiceView { type_val: Some("etcd"@), ..d.service_or_empty() });
    let took_text = string_at(d.other, "took"@);
    let d = d.text_read("took"@, "took"@);
    let e = d.event_or_empty();
    let d = d.with_event(
        EventView {
            kind: Some("event"@),
            module: Some("etcd"@),
            category: e.category.push("database"@),
            severity: match level {
                Some(l) => severity_of(l),
                None => e.severity,
            },
            duration: match took_text {
                Some(_) => took,
                None => e.duration,
            },
            ..e
        },
    );
    let caller = caller_of(d);
    let d = without_caller(d);
    d.with_log(log_with(d.log_or_empty(), level, caller))
}

/// The record after the keys that have no field in the schema have gone to
/// `misc`.
pub open spec fn etcd_leftovers(d: FluentBitJsonView) -> FluentBitJsonView {
    d.moved_all(kept_keys())
}

/// What the etcd converter makes of a record.
pub open spec fn etcd_converted(d: FluentBitJsonView, took: Option<u64>) -> FluentBitJsonView {
    etcd_leftovers(etcd_fields(d, took))
}

/// Rewrites an etcd record. `took` is the duration in nanoseconds that the
/// record's `took` text stands for, worked out by the caller from
/// `split_duration`.
pub fn convert_etcd_logs(json: &mut FluentBitJson, took: Option<u64>)
    ensures
        final(json)@ == etcd_converted(old(json)@, took),
{
    let level = json.take_string("level");

    take_timestamp(json, "ts", "ts");

    match json.take_string("msg") {
        Some(msg) => {
            json.set_message(msg);
        },
        None => {},
    }

    json.service().type_val = Some(String::from_str("etcd"));

    let took_text = json.take_string("took");
    {
        let event = json.event();
        event.kind = Some(String::from_str("event"));
        event.module = Some(String::from_str("etcd"));
        push_text(&mut event.category, "database");
        match &level {
            Some(level) => {
                event.severity = convert_severity(level.as_str());
            },
            None => {},
        }
        if took_text.is_some() {
            event.duration = took;
        }
    }

    let caller = take_caller(json);
    {
        let log = json.log();
        match level {
            Some(level) => {
                log.level = Some(level);
            },
            None => {},
        }
        match caller {
            Some((file, line)) => {
                let origin_file = log.origin().file();
                origin_file.name = Some(file);
                origin_file.line = Some(line);
            },
            None => {},
        }
    }

    let keys = vec![
        "hash",
        "compact-index",
        "compact-revision",
        "expected-duration",
        "prefix",
        "request",
        "response",
        "revision",
    ];
    assert(key_texts(keys@) =~= kept_keys());
    json.move_keys_to_misc(&keys);
}

} // verus!
