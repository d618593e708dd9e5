//! The converter for the logs of the Kubernetes dashboard's metrics scraper.

use crate::extract::{take_timestamp, with_timestamp_key};
use crate::json::{json_string, json_text, lookup, string_at, value_as_str, value_to_text};
use crate::model::ecs::{EventView, LogView};
use crate::model::{FluentBitJson, FluentBitJsonView};
use crate::text::str_eq;
use vstd::prelude::*;
use vstd::string::StringExecFns;

verus! {

/// The severity that the scraper's level names stand for.
pub open spec fn severity_of(level: Seq<char>) -> Option<u32> {
    if level == "info"@ {
        Some(200u32)
    } else if level == "warning"@ {
        Some(300u32)
    } else if level == "error"@ {
        Some(400u32)
    } else if level == "fatal"@ {
        Some(500u32)
    } else {
        None
    }
}

/// The severity of a level of the scraper, if it is one of the known levels.
pub fn convert_severity(level: &str) -> (r: Option<u32>)
    ensures
        r == severity_of(level@),
{
    if str_eq(level, "info") {
        Some(200)
    } else if str_eq(level, "warning") {
        Some(300)
    } else if str_eq(level, "error") {
        Some(400)
    } else if str_eq(level, "fatal") {
        Some(500)
    } else {
        None
    }
}

/// The keys that the scraper's converter reads into fields of the schema.
pub open spec fn reads(key: Seq<char>) -> bool {
    key == "level"@ || key == "time"@ || key == "msg"@
}

/// What the scraper's converter makes of a record. A `msg` that is no text
/// becomes the message as JSON text.
pub open spec fn dashboard_converted(d: FluentBitJsonView) -> FluentBitJsonView {
    let level = string_at(d.other, "level"@);
    let d = d.text_read("level"@, "level"@);
    let d = with_timestamp_key(d, "time"@, "time"@);
    let msg = lookup(d.other, "msg"@);
    let d = d.without("msg"@);
    let d = match msg {
        Some(v) => d.with_message(
            match json_string(v) {
                Some(s) => s,
                None => json_text(v),
            },
        ),
        None => d,
    };
    let e = d.event_or_empty();
    let d = d.with_event(
        EventView {
            module: Some("kubernetes_dashboard"@),
            severity: match level {
                Some(l) => severity_of(l),
                None => e.severity,
            },
            ..e
        },
    );
    let l = d.log_or_empty();
    d.with_log(
        match level {
            Some(level) => LogView { level: Some(level), ..l },
            None => l,
        },
    )
}

/// Rewrites a record of the Kubernetes dashboard's metrics scraper.
pub fn convert_kubernetes_dashboard_metrics_scraper(json: &mut FluentBitJson)
    ensures
        final(json)@ == dashboard_converted(old(json)@),
{
    let level = json.take_string("level");

    take_timestamp(json, "time", "time");

    match json.take_value("msg") {
        Some(message) => {
            let text = match value_as_str(&message) {
                Some(s) => String::from_str(s),
                None => value_to_text(&message),
            };
            json.set_message(text);
        },
        None => {},
    }

    let event = json.event();
    event.module = Some(String::from_str("kubernetes_dashboard"));
    match &level {
        Some(level) => {
            event.severity = convert_severity(level.as_str());
        },
        None => {},
    }

    let log = json.log();
    match level {
        Some(level) => {
            log.level = Some(level);
        },
        None => {},
    }
}

} // verus!
