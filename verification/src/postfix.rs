//! The converter for Postfix syslog lines.

use crate::grammar::postfix::{
    pair_at, parse_pair, parse_postfix_line, postfix_log, AnvilShape, MasterShape, Peer,
    PostfixLog, ProcessMessage, ScriptShape, SmtpdShape, TimeFields,
};
use crate::grammar::Span;
use crate::extract::{mark_unparsed, marked_unparsed};
use crate::model::ecs::{
    ErrorView, EventView, LogView, NetworkView, ProcessView, ServiceView, SourceView,
    TransactionView, UserView,
};
use crate::model::{FluentBitJson, FluentBitJsonView, LogOrString};
use crate::text::{chars_of, parse_u32, parsed_u32, push_text, str_eq};
use crate::time::{
    civil_month, civil_year, is_calendar_date, is_time_of_day, is_year_in_range, local_month,
    local_year, utc_instant, utc_timestamp, Timestamp,
};
use vstd::prelude::*;
use vstd::string::StringExecFns;

verus! {

/// The number of a month by its English three-letter name; 0 for any other text.
pub open spec fn month_number(name: Seq<char>) -> u32 {
    if name == "Jan"@ {
        1
    } else if name == "Feb"@ {
        2
    } else if name == "Mar"@ {
        3
    } else if name == "Apr"@ {
        4
    } else if name == "May"@ {
        5
    } else if name == "Jun"@ {
        6
    } else if name == "Jul"@ {
        7
    } else if name == "Aug"@ {
        8
    } else if name == "Sep"@ {
        9
    } else if name == "Oct"@ {
        10
    } else if name == "Nov"@ {
        11
    } else if name == "Dec"@ {
        12
    } else {
        0
    }
}

/// The number of a month by its name; 0 for any other text.
pub fn month_of(name: &str) -> (r: u32)
    ensures
        r == month_number(name@),
{
    if str_eq(name, "Jan") {
        1
    } else if str_eq(name, "Feb") {
        2
    } else if str_eq(name, "Mar") {
        3
    } else if str_eq(name, "Apr") {
        4
    } else if str_eq(name, "May") {
        5
    } else if str_eq(name, "Jun") {
        6
    } else if str_eq(name, "Jul") {
        7
    } else if str_eq(name, "Aug") {
        8
    } else if str_eq(name, "Sep") {
        9
    } else if str_eq(name, "Oct") {
        10
    } else if str_eq(name, "Nov") {
        11
    } else if str_eq(name, "Dec") {
        12
    } else {
        0
    }
}

/// The number that `text` writes, or `fallback` where it writes none.
pub open spec fn number_or(text: Seq<char>, fallback: u32) -> u32 {
    match parsed_u32(text) {
        Some(n) => n,
        None => fallback,
    }
}

/// The year of a syslog timestamp, which does not say it: a line of December
/// that arrives in January is of the year before the arrival, every other line
/// is of the year of its arrival.
pub open spec fn inferred_year(month: u32, arrival_year: i32, arrival_month: u32) -> int {
    if month == 12 && arrival_month == 1 {
        arrival_year - 1
    } else {
        arrival_year as int
    }
}

/// The year of a syslog line of month `month` that arrived in the given year and
/// month.
pub fn infer_year(month: u32, arrival_year: i32, arrival_month: u32) -> (r: i32)
    requires
        arrival_year > i32::MIN,
    ensures
        r == inferred_year(month, arrival_year, arrival_month),
{
    if month == 12 && arrival_month == 1 {
        arrival_year - 1
    } else {
        arrival_year
    }
}

/// The instant that the fields of a syslog timestamp name, given the year and
/// month of arrival. There is none where the arrival has no calendar date or the
/// fields name no date and time of day.
pub open spec fn dated(
    month: u32,
    day: u32,
    hour: u32,
    minute: u32,
    second: u32,
    arrival_year: Option<i32>,
    arrival_month: Option<u32>,
) -> Option<Timestamp> {
    match (arrival_year, arrival_month) {
        (Some(y), Some(m)) => utc_instant(
            inferred_year(month, y, m) as i32,
            month,
            day,
            hour,
            minute,
            second,
        ),
        _ => None,
    }
}

/// Whether the fields of a syslog timestamp name an instant: the arrival has a
/// calendar date, the fields name a day of the calendar in the inferred year and
/// a time of day, and that year is one that `chrono` holds.
pub open spec fn names_instant(
    month: u32,
    day: u32,
    hour: u32,
    minute: u32,
    second: u32,
    arrival_year: Option<i32>,
    arrival_month: Option<u32>,
) -> bool {
    &&& arrival_year is Some
    &&& arrival_month is Some
    &&& is_year_in_range(inferred_year(month, arrival_year->0, arrival_month->0))
    &&& is_calendar_date(
        inferred_year(month, arrival_year->0, arrival_month->0),
        month as int,
        day as int,
    )
    &&& is_time_of_day(hour as int, minute as int, second as int)
}

/// Works out the instant of a syslog timestamp from its fields and the year and
/// month of arrival. An instant that comes of it falls in the inferred year: the
/// year before the arrival for a line of December that arrives in January, and
/// the year of the arrival for every other line.
pub fn resolve_date(
    month: u32,
    day: u32,
    hour: u32,
    minute: u32,
    second: u32,
    arrival_year: Option<i32>,
    arrival_month: Option<u32>,
) -> (r: Option<Timestamp>)
    requires
        arrival_year matches Some(y) ==> y > i32::MIN,
    ensures
        r == dated(month, day, hour, minute, second, arrival_year, arrival_month),
        hour > 23 || minute > 59 || second > 59 || month < 1 || month > 12 || day < 1 || day > 31
            ==> r is None,
        r matches Some(t) ==> civil_year(t) == Some(
            inferred_year(month, arrival_year->0, arrival_month->0) as i32,
        ) && civil_month(t) == Some(month),
        names_instant(month, day, hour, minute, second, arrival_year, arrival_month) ==> r is Some,
{
    match (arrival_year, arrival_month) {
        (Some(y), Some(m)) => utc_timestamp(infer_year(month, y, m), month, day, hour, minute, second),
        _ => None,
    }
}

/// The instant that a parsed syslog timestamp names for a line that arrived at
/// `arrival`. A day that is no number counts as 0 and an hour, minute or second
/// that is no number as 1000, so that no instant comes of it.
pub open spec fn date_of(line: Seq<char>, fields: TimeFields, arrival: Timestamp) -> Option<
    Timestamp,
> {
    dated(
        month_number(fields.month.of(line)),
        number_or(fields.day.of(line), 0),
        number_or(fields.hour.of(line), 1000),
        number_or(fields.minute.of(line), 1000),
        number_or(fields.second.of(line), 1000),
        civil_year(arrival),
        civil_month(arrival),
    )
}

fn number_at(line: &[char], span: Span, fallback: u32) -> (r: u32)
    requires
        span.within(line@.len()),
    ensures
        r == number_or(span.of(line@), fallback),
{
    match parse_u32(vstd::slice::slice_subrange(line, span.start, span.end)) {
        Some(n) => n,
        None => fallback,
    }
}

/// Works out the instant that a parsed syslog timestamp names for a line that
/// arrived at `event_date`. An instant that comes of it falls in the year before
/// the arrival for a line of December that arrives in January, and in the year
/// of the arrival for every other line.
pub fn convert_date(line: &[char], fields: &TimeFields, event_date: &Timestamp) -> (r: Option<
    Timestamp,
>)
    requires
        fields.within(line@.len()),
    ensures
        r == date_of(line@, *fields, *event_date),
        r matches Some(t) ==> civil_month(t) == Some(month_number(fields.month.of(line@)))
            && civil_year(t) == Some(
            (if month_number(fields.month.of(line@)) == 12 && civil_month(*event_date) == Some(
                1u32,
            ) {
                civil_year(*event_date)->0 - 1
            } else {
                civil_year(*event_date)->0 as int
            }) as i32,
        ),
        names_instant(
            month_number(fields.month.of(line@)),
            number_or(fields.day.of(line@), 0),
            number_or(fields.hour.of(line@), 1000),
            number_or(fields.minute.of(line@), 1000),
            number_or(fields.second.of(line@), 1000),
            civil_year(*event_date),
            civil_month(*event_date),
        ) ==> r is Some,
{
    let month = month_of(fields.month.text(line).as_str());
    let day = number_at(line, fields.day, 0);
    let hour = number_at(line, fields.hour, 1000);
    let minute = number_at(line, fields.minute, 1000);
    let second = number_at(line, fields.second, 1000);
    resolve_date(month, day, hour, minute, second, local_year(event_date), local_month(event_date))
}

/// The record with one more category and up to two more types at the end of the
/// event's lists.
pub open spec fn classified(
    d: FluentBitJsonView,
    category: Option<Seq<char>>,
    first_type: Option<Seq<char>>,
    second_type: Option<Seq<char>>,
) -> FluentBitJsonView {
    let e = d.event_or_empty();
    let category = match category {
        Some(c) => e.category.push(c),
        None => e.category,
    };
    let types = match first_type {
        Some(t) => e.type_val.push(t),
        None => e.type_val,
    };
    let types = match second_type {
        Some(t) => types.push(t),
        None => types,
    };
    d.with_event(EventView { category, type_val: types, ..e })
}

fn classify(
    json: &mut FluentBitJson,
    category: Option<&str>,
    first_type: Option<&str>,
    second_type: Option<&str>,
)
    ensures
        final(json)@ == classified(
            old(json)@,
            category.deep_view(),
            first_type.deep_view(),
            second_type.deep_view(),
        ),
{
    let event = json.event();
    match category {
        Some(c) => {
            push_text(&mut event.category, c);
        },
        None => {},
    }
    match first_type {
        Some(t) => {
            push_text(&mut event.type_val, t);
        },
        None => {},
    }
    match second_type {
        Some(t) => {
            push_text(&mut event.type_val, t);
        },
        None => {},
    }
}

/// The record with the outcome of the event set.
pub open spec fn with_outcome(d: FluentBitJsonView, outcome: Seq<char>) -> FluentBitJsonView {
    d.with_event(EventView { outcome: Some(outcome), ..d.event_or_empty() })
}

fn set_outcome(json: &mut FluentBitJson, outcome: &str)
    ensures
        final(json)@ == with_outcome(old(json)@, outcome@),
{
    json.event().outcome = Some(String::from_str(outcome));
}

/// The record with the severity of the event set.
pub open spec fn with_severity(d: FluentBitJsonView, severity: u32) -> FluentBitJsonView {
    d.with_event(EventView { severity: Some(severity), ..d.event_or_empty() })
}

fn set_severity(json: &mut FluentBitJson, severity: u32)
    ensures
        final(json)@ == with_severity(old(json)@, severity),
{
    json.event().severity = Some(severity);
}

/// The record of a mail connection: SMTP over TCP.
pub open spec fn over_smtp(d: FluentBitJsonView) -> FluentBitJsonView {
    d.with_network(
        NetworkView { protocol: Some("smtp"@), transport: Some("tcp"@), ..d.network_or_empty() },
    )
}

fn set_smtp(json: &mut FluentBitJson)
    ensures
        final(json)@ == over_smtp(old(json)@),
{
    let network = json.network();
    network.protocol = Some(String::from_str("smtp"));
    network.transport = Some(String::from_str("tcp"));
}

/// The record with the name of the process set.
pub open spec fn with_process_name(d: FluentBitJsonView, name: Seq<char>) -> FluentBitJsonView {
    d.with_process(ProcessView { name: Some(name), ..d.process_or_empty() })
}

fn set_process_name(json: &mut FluentBitJson, name: &str)
    ensures
        final(json)@ == with_process_name(old(json)@, name@),
{
    json.process().name = Some(String::from_str(name));
}

/// The record after the pid has been read: a pid that fits is written to the
/// process.
pub open spec fn with_pid(d: FluentBitJsonView, pid: Seq<char>) -> FluentBitJsonView {
    match parsed_u32(pid) {
        Some(n) => d.with_process(ProcessView { pid: Some(n), ..d.process_or_empty() }),
        None => d,
    }
}

fn convert_pid(json: &mut FluentBitJson, line: &[char], pid: Span)
    requires
        pid.within(line@.len()),
    ensures
        final(json)@ == with_pid(old(json)@, pid.of(line@)),
{
    match parse_u32(vstd::slice::slice_subrange(line, pid.start, pid.end)) {
        Some(n) => {
            json.process().pid = Some(n);
        },
        None => {},
    }
}

/// The record after the warning mark has been read: severity 200 without the
/// mark, severity 300 and the level `warning` with it.
pub open spec fn with_log_level(d: FluentBitJsonView, warning: bool) -> FluentBitJsonView {
    let d = with_severity(d, 200);
    if warning {
        let d = with_severity(d, 300);
        d.with_log(LogView { level: Some("warning"@), ..d.log_or_empty() })
    } else {
        d
    }
}

fn convert_log_level(json: &mut FluentBitJson, warning: bool)
    ensures
        final(json)@ == with_log_level(old(json)@, warning),
{
    set_severity(json, 200);
    if warning {
        set_severity(json, 300);
        json.log().level = Some(String::from_str("warning"));
    }
}

/// The record with the text of the message set; a message that the record had
/// before is kept in `misc`.
pub open spec fn with_message(d: FluentBitJsonView, message: Seq<char>) -> FluentBitJsonView {
    d.with_message(message)
}

/// The record after a peer has been read: its address becomes the source
/// address, and its hostname the source domain unless it is `unknown`.
pub open spec fn with_peer(
    d: FluentBitJsonView,
    hostname: Seq<char>,
    ip: Seq<char>,
) -> FluentBitJsonView {
    let d = if hostname == "unknown"@ {
        d
    } else {
        d.with_source(SourceView { domain: Some(hostname), ..d.source_or_empty() })
    };
    d.with_source(SourceView { ip: Some(ip), ..d.source_or_empty() })
}

fn convert_hostname_ip_to_source(json: &mut FluentBitJson, line: &[char], peer: Peer)
    requires
        peer.within(line@.len()),
    ensures
        final(json)@ == with_peer(old(json)@, peer.hostname.of(line@), peer.ip.of(line@)),
{
    let hostname = peer.hostname.text(line);
    if !str_eq(hostname.as_str(), "unknown") {
        json.source().domain = Some(hostname);
    }
    json.source().ip = Some(peer.ip.text(line));
}

/// The record after a queue id has been read: it names the transaction together
/// with the host, unless it is `NOQUEUE`.
pub open spec fn with_queue_id(
    d: FluentBitJsonView,
    queue_id: Seq<char>,
    host: Seq<char>,
) -> FluentBitJsonView {
    if queue_id == "NOQUEUE"@ {
        d
    } else {
        d.with_transaction(
            TransactionView { id: Some(host + seq!['.'] + queue_id), ..d.transaction_or_empty() },
        )
    }
}

fn convert_queue_id(json: &mut FluentBitJson, queue_id: &str, host: &str)
    ensures
        final(json)@ == with_queue_id(old(json)@, queue_id@, host@),
{
    if str_eq(queue_id, "NOQUEUE") {
        return ;
    }
    let mut id = String::from_str(host);
    id.append(".");
    id.append(queue_id);
    proof {
        reveal_strlit(".");
        assert("."@ =~= seq!['.']);
    }
    json.transaction().id = Some(id);
}

/// The record after one pair of a client line has been read: a SASL user name
/// marks the event as an authentication and names the user.
pub open spec fn with_client_pair(
    d: FluentBitJsonView,
    key: Seq<char>,
    value: Seq<char>,
) -> FluentBitJsonView {
    if key == "sasl_username"@ {
        let d = classified(d, Some("authentication"@), None, None);
        d.with_user(UserView { name: Some(value), ..d.user_or_empty() })
    } else {
        d
    }
}

/// The record after the pairs that start at `at` have been read, one after the
/// other.
pub open spec fn with_client_pairs(
    d: FluentBitJsonView,
    line: Seq<char>,
    at: usize,
) -> FluentBitJsonView
    decreases line.len() - at,
{
    match pair_at(line, at) {
        Some((pair, e)) => if at < e <= line.len() {
            with_client_pairs(
                with_client_pair(d, pair.key.of(line), pair.value.of(line)),
                line,
                e,
            )
        } else {
            d
        },
        None => d,
    }
}

fn convert_client_pairs(json: &mut FluentBitJson, line: &[char], at: usize)
    requires
        at <= line@.len(),
    ensures
        final(json)@ == with_client_pairs(old(json)@, line@, at),
{
    let mut q: usize = at;
    loop
        invariant
            q <= line@.len(),
            with_client_pairs(json@, line@, q) == with_client_pairs(old(json)@, line@, at),
        ensures
            json@ == with_client_pairs(old(json)@, line@, at),
        decreases line@.len() - q,
    {
        match parse_pair(line, q) {
            Some((pair, e)) => {
                let key = pair.key.text(line);
                if str_eq(key.as_str(), "sasl_username") {
                    classify(json, Some("authentication"), None, None);
                    json.user().name = Some(pair.value.text(line));
                }
                q = e;
            },
            None => {
                break ;
            },
        }
    }
}

/// The record after the shape of a message of `smtpd` has been read.
pub open spec fn with_smtpd_shape(
    d: FluentBitJsonView,
    line: Seq<char>,
    shape: SmtpdShape,
    host: Seq<char>,
) -> FluentBitJsonView {
    match shape {
        SmtpdShape::Connect { peer } => {
            let d = classified(d, Some("network"@), Some("connection"@), Some("start"@));
            let d = over_smtp(with_outcome(d, "success"@));
            with_peer(d, peer.hostname.of(line), peer.ip.of(line))
        },
        SmtpdShape::Disconnect { peer } => {
            let d = classified(d, Some("network"@), Some("connection"@), Some("end"@));
            let d = over_smtp(with_outcome(d, "success"@));
            with_peer(d, peer.hostname.of(line), peer.ip.of(line))
        },
        SmtpdShape::LostConnection { reason, peer } => {
            let d = classified(d, Some("network"@), Some("connection"@), Some("protocol"@));
            let d = over_smtp(with_severity(with_outcome(d, "failure"@), 300));
            let d = d.with_error(
                ErrorView { message: Some(reason.of(line)), ..d.error_or_empty() },
            );
            with_peer(d, peer.hostname.of(line), peer.ip.of(line))
        },
        SmtpdShape::AuthFailed { peer } => {
            let d = classified(d, Some("authentication"@), Some("protocol"@), None);
            let d = with_severity(with_outcome(d, "failure"@), 300);
            with_peer(d, peer.hostname.of(line), peer.ip.of(line))
        },
        SmtpdShape::MailOpenStream { queue_id, client, pairs } => {
            let d = classified(d, None, Some("connection"@), None);
            let d = over_smtp(with_outcome(d, "success"@));
            let d = with_queue_id(d, queue_id.of(line), host);
            let d = with_peer(d, client.hostname.of(line), client.ip.of(line));
            with_client_pairs(d, line, pairs.start)
        },
        SmtpdShape::Other => d,
    }
}

fn convert_smtpd_shape(json: &mut FluentBitJson, line: &[char], shape: SmtpdShape, host: &str)
    requires
        shape.within(line@.len()),
    ensures
        final(json)@ == with_smtpd_shape(old(json)@, line@, shape, host@),
{
    match shape {
        SmtpdShape::Connect { peer } => {
            classify(json, Some("network"), Some("connection"), Some("start"));
            set_outcome(json, "success");
            set_smtp(json);
            convert_hostname_ip_to_source(json, line, peer);
        },
        SmtpdShape::Disconnect { peer } => {
            classify(json, Some("network"), Some("connection"), Some("end"));
            set_outcome(json, "success");
            set_smtp(json);
            convert_hostname_ip_to_source(json, line, peer);
        },
        SmtpdShape::LostConnection { reason, peer } => {
            classify(json, Some("network"), Some("connection"), Some("protocol"));
            set_outcome(json, "failure");
            set_severity(json, 300);
            set_smtp(json);
            json.error().message = Some(reason.text(line));
            convert_hostname_ip_to_source(json, line, peer);
        },
        SmtpdShape::AuthFailed { peer } => {
            classify(json, Some("authentication"), Some("protocol"), None);
            set_outcome(json, "failure");
            set_severity(json, 300);
            convert_hostname_ip_to_source(json, line, peer);
        },
        SmtpdShape::MailOpenStream { queue_id, client, pairs } => {
            classify(json, None, Some("connection"), None);
            set_outcome(json, "success");
            set_smtp(json);
            convert_queue_id(json, queue_id.text(line).as_str(), host);
            convert_hostname_ip_to_source(json, line, client);
            convert_client_pairs(json, line, pairs.start);
        },
        SmtpdShape::Other => {},
    }
}

/// The parts that the messages of all processes but `anvil` share: the pid,
/// the warning mark and the text of the message.
pub open spec fn with_common(
    d: FluentBitJsonView,
    line: Seq<char>,
    log: PostfixLog,
    warning: bool,
) -> FluentBitJsonView {
    with_message(with_log_level(with_pid(d, log.pid.of(line)), warning), log.message.of(line))
}

fn convert_common(json: &mut FluentBitJson, line: &[char], log: &PostfixLog, warning: bool)
    requires
        log.within(line@.len()),
    ensures
        final(json)@ == with_common(old(json)@, line@, *log, warning),
{
    convert_pid(json, line, log.pid);
    convert_log_level(json, warning);
    json.set_message(log.message.text(line));
}

/// What a line of `smtpd` makes of the record.
pub open spec fn with_smtpd(
    d: FluentBitJsonView,
    line: Seq<char>,
    log: PostfixLog,
    warning: bool,
    shape: SmtpdShape,
) -> FluentBitJsonView {
    let d = with_process_name(d, "smtpd"@);
    let d = classified(d, Some("email"@), None, None);
    let d = with_common(d, line, log, warning);
    with_smtpd_shape(d, line, shape, log.host.of(line))
}

fn convert_smtpd(
    json: &mut FluentBitJson,
    line: &[char],
    log: &PostfixLog,
    warning: bool,
    shape: SmtpdShape,
)
    requires
        log.within(line@.len()),
        shape.within(line@.len()),
    ensures
        final(json)@ == with_smtpd(old(json)@, line@, *log, warning, shape),
{
    set_process_name(json, "smtpd");
    classify(json, Some("email"), None, None);
    convert_common(json, line, log, warning);
    convert_smtpd_shape(json, line, shape, log.host.text(line).as_str());
}

/// What a line of `postfix-script` makes of the record.
pub open spec fn with_postfix_script(
    d: FluentBitJsonView,
    line: Seq<char>,
    log: PostfixLog,
    warning: bool,
    shape: ScriptShape,
) -> FluentBitJsonView {
    let d = with_process_name(d, "postfix-script"@);
    let d = classified(d, Some("email"@), None, None);
    let d = with_common(d, line, log, warning);
    match shape {
        ScriptShape::StartingPostfix => with_outcome(
            classified(d, Some("process"@), Some("start"@), None),
            "unknown"@,
        ),
        ScriptShape::GroupWritable => classified(d, Some("file"@), Some("info"@), None),
        ScriptShape::Other => d,
    }
}

fn convert_postfix_script(
    json: &mut FluentBitJson,
    line: &[char],
    log: &PostfixLog,
    warning: bool,
    shape: ScriptShape,
)
    requires
        log.within(line@.len()),
    ensures
        final(json)@ == with_postfix_script(old(json)@, line@, *log, warning, shape),
{
    set_process_name(json, "postfix-script");
    classify(json, Some("email"), None, None);
    convert_common(json, line, log, warning);
    match shape {
        ScriptShape::StartingPostfix => {
            classify(json, Some("process"), Some("start"), None);
            set_outcome(json, "unknown");
        },
        ScriptShape::GroupWritable => {
            classify(json, Some("file"), Some("info"), None);
        },
        ScriptShape::Other => {},
    }
}

/// The record after the client of a statistic of `anvil` has been read.
pub open spec fn with_anvil_client(
    d: FluentBitJsonView,
    metric: Seq<char>,
    protocol: Seq<char>,
    ip: Seq<char>,
) -> FluentBitJsonView {
    let d = classified(
        d,
        Some("network"@),
        if metric == "connection"@ {
            Some("connection"@)
        } else {
            None
        },
        None,
    );
    let d = d.with_network(NetworkView { protocol: Some(protocol), ..d.network_or_empty() });
    d.with_source(SourceView { ip: Some(ip), ..d.source_or_empty() })
}

fn convert_anvil_client(
    json: &mut FluentBitJson,
    line: &[char],
    metric: Span,
    protocol: Span,
    ip: Span,
)
    requires
        metric.within(line@.len()),
        protocol.within(line@.len()),
        ip.within(line@.len()),
    ensures
        final(json)@ == with_anvil_client(
            old(json)@,
            metric.of(line@),
            protocol.of(line@),
            ip.of(line@),
        ),
{
    let of_connections = str_eq(metric.text(line).as_str(), "connection");
    classify(
        json,
        Some("network"),
        if of_connections {
            Some("connection")
        } else {
            None
        },
        None,
    );
    json.network().protocol = Some(protocol.text(line));
    json.source().ip = Some(ip.text(line));
}

/// The record with the end of the event set to the instant `end`, or to none.
pub open spec fn with_end(d: FluentBitJsonView, end: Option<Timestamp>) -> FluentBitJsonView {
    d.with_event(EventView { end, ..d.event_or_empty() })
}

/// What a line of `anvil` makes of the record: a metric at the severity of a
/// debug message, whose statistics name a client and the time they were taken.
pub open spec fn with_anvil(
    d: FluentBitJsonView,
    line: Seq<char>,
    log: PostfixLog,
    shape: AnvilShape,
    arrival: Timestamp,
) -> FluentBitJsonView {
    let d = with_process_name(d, "anvil"@);
    let d = d.with_event(EventView { kind: Some("metric"@), ..d.event_or_empty() });
    let d = classified(d, Some("email"@), None, None);
    let d = with_severity(d, 100);
    let d = with_message(with_pid(d, log.pid.of(line)), log.message.of(line));
    match shape {
        AnvilShape::Rate { metric, protocol, ip, at } => with_end(
            with_anvil_client(d, metric.of(line), protocol.of(line), ip.of(line)),
            date_of(line, at, arrival),
        ),
        AnvilShape::Count { metric, protocol, ip, at } => with_end(
            with_anvil_client(d, metric.of(line), protocol.of(line), ip.of(line)),
            date_of(line, at, arrival),
        ),
        AnvilShape::Cache { at } => with_end(d, date_of(line, at, arrival)),
        AnvilShape::Other => d,
    }
}

fn convert_anvil(
    json: &mut FluentBitJson,
    line: &[char],
    log: &PostfixLog,
    shape: AnvilShape,
    event_date: &Timestamp,
)
    requires
        log.within(line@.len()),
        shape.within(line@.len()),
    ensures
        final(json)@ == with_anvil(old(json)@, line@, *log, shape, *event_date),
{
    set_process_name(json, "anvil");
    json.event().kind = Some(String::from_str("metric"));
    classify(json, Some("email"), None, None);
    set_severity(json, 100);
    convert_pid(json, line, log.pid);
    json.set_message(log.message.text(line));
    match shape {
        AnvilShape::Rate { metric, protocol, ip, at } => {
            convert_anvil_client(json, line, metric, protocol, ip);
            json.event().end = convert_date(line, &at, event_date);
        },
        AnvilShape::Count { metric, protocol, ip, at } => {
            convert_anvil_client(json, line, metric, protocol, ip);
            json.event().end = convert_date(line, &at, event_date);
        },
        AnvilShape::Cache { at } => {
            json.event().end = convert_date(line, &at, event_date);
        },
        AnvilShape::Other => {},
    }
}

/// What a line of `master` makes of the record.
pub open spec fn with_master(
    d: FluentBitJsonView,
    line: Seq<char>,
    log: PostfixLog,
    warning: bool,
    shape: MasterShape,
) -> FluentBitJsonView {
    let d = with_process_name(d, "master"@);
    let d = classified(d, Some("email"@), None, None);
    let d = with_common(d, line, log, warning);
    match shape {
        MasterShape::DaemonStarted => with_outcome(
            classified(d, Some("process"@), Some("start"@), None),
            "success"@,
        ),
        MasterShape::Other => d,
    }
}

fn convert_master(
    json: &mut FluentBitJson,
    line: &[char],
    log: &PostfixLog,
    warning: bool,
    shape: MasterShape,
)
    requires
        log.within(line@.len()),
    ensures
        final(json)@ == with_master(old(json)@, line@, *log, warning, shape),
{
    set_process_name(json, "master");
    classify(json, Some("email"), None, None);
    convert_common(json, line, log, warning);
    match shape {
        MasterShape::DaemonStarted => {
            classify(json, Some("process"), Some("start"), None);
            set_outcome(json, "success");
        },
        MasterShape::Other => {},
    }
}

/// What a line of Postfix itself makes of the record.
pub open spec fn with_main(
    d: FluentBitJsonView,
    line: Seq<char>,
    log: PostfixLog,
    warning: bool,
) -> FluentBitJsonView {
    with_common(classified(d, Some("email"@), None, None), line, log, warning)
}

fn convert_main(json: &mut FluentBitJson, line: &[char], log: &PostfixLog, warning: bool)
    requires
        log.within(line@.len()),
    ensures
        final(json)@ == with_main(old(json)@, line@, *log, warning),
{
    classify(json, Some("email"), None, None);
    convert_common(json, line, log, warning);
}

/// What a line of any other process makes of the record: the name of the
/// process, the pid and the message.
pub open spec fn with_other(
    d: FluentBitJsonView,
    line: Seq<char>,
    log: PostfixLog,
    name: Span,
    warning: bool,
) -> FluentBitJsonView {
    with_common(with_process_name(d, name.of(line)), line, log, warning)
}

fn convert_other(
    json: &mut FluentBitJson,
    line: &[char],
    log: &PostfixLog,
    name: Span,
    warning: bool,
)
    requires
        log.within(line@.len()),
        name.within(line@.len()),
    ensures
        final(json)@ == with_other(old(json)@, line@, *log, name, warning),
{
    json.process().name = Some(name.text(line));
    convert_common(json, line, log, warning);
}

/// What the process part of a parsed line makes of the record.
pub open spec fn with_process_message(
    d: FluentBitJsonView,
    line: Seq<char>,
    log: PostfixLog,
    arrival: Timestamp,
) -> FluentBitJsonView {
    match log.process {
        ProcessMessage::Smtpd { warning, shape } => with_smtpd(d, line, log, warning, shape),
        ProcessMessage::PostfixScript { warning, shape } => with_postfix_script(
            d,
            line,
            log,
            warning,
            shape,
        ),
        ProcessMessage::Anvil { shape } => with_anvil(d, line, log, shape, arrival),
        ProcessMessage::Master { warning, shape } => with_master(d, line, log, warning, shape),
        ProcessMessage::Main { warning } => with_main(d, line, log, warning),
        ProcessMessage::Other { name, warning } => with_other(d, line, log, name, warning),
    }
}

/// What a parsed line makes of the record: the event keeps the whole line, the
/// timestamp of the line becomes the record's, and the process part is read.
pub open spec fn with_parsed(
    d: FluentBitJsonView,
    line: Seq<char>,
    log: PostfixLog,
    arrival: Timestamp,
) -> FluentBitJsonView {
    let d = d.with_event(
        EventView { module: Some("postfix"@), original: Some(line), ..d.event_or_empty() },
    );
    let d = d.with_service(ServiceView { type_val: Some("postfix"@), ..d.service_or_empty() });
    let d = FluentBitJsonView { timestamp: date_of(line, log.time, arrival), ..d };
    with_process_message(d, line, log, arrival)
}

fn convert_parsed_logs(
    json: &mut FluentBitJson,
    line: &[char],
    log: &PostfixLog,
    event_date: &Timestamp,
    whole: String,
)
    requires
        log.within(line@.len()),
        whole@ == line@,
    ensures
        final(json)@ == with_parsed(old(json)@, line@, *log, *event_date),
{
    {
        let event = json.event();
        event.module = Some(String::from_str("postfix"));
        event.original = Some(whole);
    }
    json.service().type_val = Some(String::from_str("postfix"));
    json.timestamp = convert_date(line, &log.time, event_date);
    match log.process {
        ProcessMessage::Smtpd { warning, shape } => {
            convert_smtpd(json, line, log, warning, shape);
        },
        ProcessMessage::PostfixScript { warning, shape } => {
            convert_postfix_script(json, line, log, warning, shape);
        },
        ProcessMessage::Anvil { shape } => {
            convert_anvil(json, line, log, shape, event_date);
        },
        ProcessMessage::Master { warning, shape } => {
            convert_master(json, line, log, warning, shape);
        },
        ProcessMessage::Main { warning } => {
            convert_main(json, line, log, warning);
        },
        ProcessMessage::Other { name, warning } => {
            convert_other(json, line, log, name, warning);
        },
    }
}

/// The mark of a record of Postfix that could not be read.
pub open spec fn marked_failed(d: FluentBitJsonView) -> FluentBitJsonView {
    let d = d.with_event(EventView { module: Some("postfix"@), ..d.event_or_empty() });
    marked_unparsed(d)
}

/// What becomes of a record that brings no line.
pub open spec fn with_line_missing(d: FluentBitJsonView) -> FluentBitJsonView {
    marked_failed(with_message(d, "fluent-ecs postfix parser failed: no log line passed."@))
}

fn convert_log_missing(json: &mut FluentBitJson)
    ensures
        final(json)@ == with_line_missing(old(json)@),
{
    json.set_message(String::from_str("fluent-ecs postfix parser failed: no log line passed."));
    json.event().module = Some(String::from_str("postfix"));
    mark_unparsed(json);
}

/// What becomes of a record whose line is no Postfix line: the line is kept word
/// for word as the message and as the message of the error, and the record is
/// marked.
pub open spec fn with_line_unparsed(d: FluentBitJsonView, line: Seq<char>) -> FluentBitJsonView {
    let d = with_message(d, line);
    let d = d.with_error(ErrorView { message: Some(line), ..d.error_or_empty() });
    let d = marked_failed(d);
    d.with_service(ServiceView { type_val: Some("postfix"@), ..d.service_or_empty() })
}

fn convert_parse_error(json: &mut FluentBitJson, log: String)
    ensures
        final(json)@ == with_line_unparsed(old(json)@, log@),
{
    json.set_message(log.clone());
    json.error().message = Some(log);
    json.event().module = Some(String::from_str("postfix"));
    mark_unparsed(json);
    json.service().type_val = Some(String::from_str("postfix"));
}

/// What the Postfix converter makes of a record that arrived at `arrival`. The
/// line is the plain text that `log` arrived as, which is consumed.
pub open spec fn postfix_converted(d: FluentBitJsonView, arrival: Timestamp) -> FluentBitJsonView {
    match d.log_text() {
        None => with_line_missing(d),
        Some(line) => {
            let d = FluentBitJsonView { log: None, ..d };
            match postfix_log(line) {
                Some(log) => with_parsed(d, line, log, arrival),
                None => with_line_unparsed(d, line),
            }
        },
    }
}

/// Rewrites a Postfix record that arrived at `event_date`.
pub fn convert_postfix_logs(json: &mut FluentBitJson, event_date: &Timestamp)
    ensures
        final(json)@ == postfix_converted(old(json)@, *event_date),
{
    let is_text = match &json.log {
        Some(LogOrString::String(_)) => true,
        _ => false,
    };
    if !is_text {
        convert_log_missing(json);
        return ;
    }
    let log = match json.log.take() {
        Some(LogOrString::String(log)) => log,
        _ => {
            return ;
        },
    };
    let line = chars_of(log.as_str());
    match parse_postfix_line(line.as_slice()) {
        Some(parsed) => {
            convert_parsed_logs(json, line.as_slice(), &parsed, event_date, log);
        },
        None => {
            convert_parse_error(json, log);
        },
    }
}

} // verus!
