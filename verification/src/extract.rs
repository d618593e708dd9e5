//! Steps that several converters share: reading the record's own timestamp and
//! the place in the source that logged it, and marking a record whose line could
//! not be read.

use crate::json::string_at;
use crate::model::ecs::EventView;
use crate::model::{FluentBitJson, FluentBitJsonView};
use crate::text::{chars_of, find_first, first_index_of, labelled, parse_u32, parsed_u32, substring};
use crate::time::{parse_rfc3339, rfc3339_instant, Timestamp};
use vstd::prelude::*;
use vstd::string::StringExecFns;

verus! {

/// The record after a timestamp text has been read: a text that names an
/// instant sets the record's timestamp, any other text is kept in `misc` under
/// `label`.
pub open spec fn with_timestamp_text(
    d: FluentBitJsonView,
    label: Seq<char>,
    text: Seq<char>,
    parsed: Option<Timestamp>,
) -> FluentBitJsonView {
    match parsed {
        Some(t) => FluentBitJsonView { timestamp: Some(t), ..d },
        None => d.noting(labelled(label, text)),
    }
}

/// The record after its timestamp has been taken from the key `key`: the key
/// leaves the unclaimed keys, and where it held a text, that text is read as an
/// RFC 3339 date and time. A value that is no text is kept in `misc` under
/// `label`.
pub open spec fn with_timestamp_key(
    d: FluentBitJsonView,
    key: Seq<char>,
    label: Seq<char>,
) -> FluentBitJsonView {
    match string_at(d.other, key) {
        Some(text) => with_timestamp_text(d.without(key), label, text, rfc3339_instant(text)),
        None => d.text_read(key, label),
    }
}

/// Records the outcome of reading `text` as a timestamp.
pub fn apply_timestamp(
    json: &mut FluentBitJson,
    label: &str,
    text: &str,
    parsed: Option<Timestamp>,
)
    ensures
        final(json)@ == with_timestamp_text(old(json)@, label@, text@, parsed),
{
    match parsed {
        Some(t) => {
            json.timestamp = Some(t);
        },
        None => {
            json.note(label, text);
        },
    }
}

/// Takes the record's own timestamp from the key `key`.
pub fn take_timestamp(json: &mut FluentBitJson, key: &str, label: &str)
    ensures
        final(json)@ == with_timestamp_key(old(json)@, key@, label@),
{
    match json.take_string_as(key, label) {
        Some(text) => {
            let parsed = parse_rfc3339(text.as_str());
            apply_timestamp(json, label, text.as_str(), parsed);
        },
        None => {},
    }
}

/// A caller text `file:line` as the file and the line number: the text is cut at
/// its first colon, and what follows must be a number.
pub open spec fn caller_parts(text: Seq<char>) -> Option<(Seq<char>, u32)> {
    match first_index_of(text, ':') {
        Some(i) => match parsed_u32(text.skip(i + 1)) {
            Some(line) => Some((text.take(i), line)),
            None => None,
        },
        None => None,
    }
}

/// The caller that the key `caller` names, if it holds a text of that shape.
pub open spec fn caller_of(d: FluentBitJsonView) -> Option<(Seq<char>, u32)> {
    match string_at(d.other, "caller"@) {
        Some(text) => caller_parts(text),
        None => None,
    }
}

/// Splits a caller text into file and line.
pub fn split_caller(text: &str) -> (r: Option<(String, u32)>)
    ensures
        match r {
            Some((file, line)) => caller_parts(text@) == Some((file@, line)),
            None => caller_parts(text@) is None,
        },
{
    let chars = chars_of(text);
    match find_first(chars.as_slice(), ':') {
        Some(i) => {
            proof {
                crate::text::lemma_first_index_of(chars@, ':');
            }
            let rest = vstd::slice::slice_subrange(chars.as_slice(), i + 1, chars.len());
            assert(rest@ == chars@.skip(i + 1));
            match parse_u32(rest) {
                Some(line) => {
                    let file = substring(chars.as_slice(), 0, i);
                    assert(chars@.subrange(0, i as int) == chars@.take(i as int));
                    Some((file, line))
                },
                None => None,
            }
        },
        None => None,
    }
}

/// The record after the caller has been taken from the key `caller`: the key
/// leaves the unclaimed keys, and a value that does not name a file and a line
/// is kept in `misc`.
pub open spec fn without_caller(d: FluentBitJsonView) -> FluentBitJsonView {
    match string_at(d.other, "caller"@) {
        Some(text) => match caller_parts(text) {
            Some(_) => d.without("caller"@),
            None => d.without("caller"@).noting(labelled("caller"@, text)),
        },
        None => d.text_read("caller"@, "caller"@),
    }
}

/// Takes the key `caller` out of the unclaimed keys and returns the file and
/// line it names.
pub fn take_caller(json: &mut FluentBitJson) -> (r: Option<(String, u32)>)
    ensures
        final(json)@ == without_caller(old(json)@),
        match r {
            Some((file, line)) => caller_of(old(json)@) == Some((file@, line)),
            None => caller_of(old(json)@) is None,
        },
{
    match json.take_string("caller") {
        Some(text) => {
            let parts = split_caller(text.as_str());
            if parts.is_none() {
                json.note("caller", text.as_str());
            }
            parts
        },
        None => None,
    }
}

/// The mark of a line that its grammar could not read: the record is kept, as
/// a failure of the pipeline at the severity of a warning.
pub open spec fn marked_unparsed(d: FluentBitJsonView) -> FluentBitJsonView {
    d.with_event(
        EventView {
            kind: Some("pipeline_error"@),
            severity: Some(300u32),
            outcome: Some("failure"@),
            ..d.event_or_empty()
        },
    )
}

/// Marks the record as one whose line could not be read.
pub fn mark_unparsed(json: &mut FluentBitJson)
    ensures
        final(json)@ == marked_unparsed(old(json)@),
{
    let event = json.event();
    event.kind = Some(String::from_str("pipeline_error"));
    event.severity = Some(300);
    event.outcome = Some(String::from_str("failure"));
}

} // verus!
