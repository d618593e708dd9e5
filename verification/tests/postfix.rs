use fluent_ecs::grammar::postfix::{
    parse_pair, parse_postfix_line, AnvilShape, MasterShape, ProcessMessage, ScriptShape,
    SmtpdShape,
};
use fluent_ecs::grammar::Span;
use fluent_ecs::model::{FluentBitJson, LogOrString};
use fluent_ecs::postfix::{
    convert_date, convert_postfix_logs, infer_year, month_of, resolve_date,
};
use fluent_ecs::time::Timestamp;

fn chars(s: &str) -> Vec<char> {
    s.chars().collect()
}

fn text(line: &str, span: Span) -> String {
    line.chars().skip(span.start).take(span.end - span.start).collect()
}

fn texts(items: &[&str]) -> Vec<String> {
    items.iter().map(|s| s.to_string()).collect()
}

/// 2023-11-16T13:27:38.555+01:00
fn arrival() -> Timestamp {
    Timestamp { secs: 1700137658, nanos: 555_000_000, offset: 3600 }
}

fn converted(line: &str, event_date: Timestamp) -> FluentBitJson {
    let mut json = FluentBitJson::new();
    json.log = Some(LogOrString::String(line.to_string()));
    convert_postfix_logs(&mut json, &event_date);
    json
}

#[test]
fn smtpd_connect_from_a_known_host() {
    let line = "Nov 16 13:27:38 myhost postfix/smtpd[1234]: connect from mail.example.com[10.0.0.1]";
    let mut json = converted(line, arrival());
    assert!(json.log.is_none());
    assert_eq!(json.timestamp, Some(Timestamp { secs: 1700141258, nanos: 0, offset: 0 }));
    assert_eq!(json.message.as_deref(), Some("connect from mail.example.com[10.0.0.1]"));
    let event = json.event();
    assert!(event.category.contains(&"network".to_string()));
    assert_eq!(event.category, texts(&["email", "network"]));
    assert_eq!(event.type_val, texts(&["connection", "start"]));
    assert_eq!(event.outcome.as_deref(), Some("success"));
    assert_eq!(event.module.as_deref(), Some("postfix"));
    assert_eq!(event.original.as_deref(), Some(line));
    assert_eq!(event.severity, Some(200));
    assert_eq!(event.kind, None);
    assert_eq!(json.source().domain.as_deref(), Some("mail.example.com"));
    assert_eq!(json.source().ip.as_deref(), Some("10.0.0.1"));
    assert_eq!(json.network().protocol.as_deref(), Some("smtp"));
    assert_eq!(json.network().transport.as_deref(), Some("tcp"));
    assert_eq!(json.process().name.as_deref(), Some("smtpd"));
    assert_eq!(json.process().pid, Some(1234));
    assert_eq!(json.service().type_val.as_deref(), Some("postfix"));
    assert!(json.error.is_none());
    assert!(json.misc.is_empty());
}

#[test]
fn smtpd_connect_from_an_unknown_host_names_no_domain() {
    let mut json = converted("Nov 16 13:27:38 mx postfix/smtpd[7]: connect from unknown[10.0.0.9]", arrival());
    assert_eq!(json.source().domain, None);
    assert_eq!(json.source().ip.as_deref(), Some("10.0.0.9"));
}

#[test]
fn smtpd_disconnect_with_statistics_after_the_peer() {
    let mut json = converted(
        "Nov 16 13:27:38 mx postfix/smtpd[7]: disconnect from a.example[10.0.0.2] ehlo=1 quit=1 commands=2",
        arrival(),
    );
    assert_eq!(json.event().category, texts(&["email", "network"]));
    assert_eq!(json.event().type_val, texts(&["connection", "end"]));
    assert_eq!(json.event().outcome.as_deref(), Some("success"));
    assert_eq!(json.source().domain.as_deref(), Some("a.example"));
    assert_eq!(
        json.message.as_deref(),
        Some("disconnect from a.example[10.0.0.2] ehlo=1 quit=1 commands=2")
    );
}

#[test]
fn smtpd_lost_connection_is_a_failure() {
    let mut json = converted(
        "Nov 16 13:27:38 mx postfix/smtpd[7]: lost connection after AUTH from unknown[10.0.0.3]",
        arrival(),
    );
    assert_eq!(json.event().category, texts(&["email", "network"]));
    assert_eq!(json.event().type_val, texts(&["connection", "protocol"]));
    assert_eq!(json.event().outcome.as_deref(), Some("failure"));
    assert_eq!(json.event().severity, Some(300));
    assert_eq!(json.error().message.as_deref(), Some("lost connection after AUTH"));
    assert_eq!(json.source().ip.as_deref(), Some("10.0.0.3"));
    assert_eq!(json.network().protocol.as_deref(), Some("smtp"));
}

#[test]
fn smtpd_auth_failed_with_warning_mark() {
    let mut json = converted(
        "Nov 16 13:27:38 mx postfix/smtpd[7]: warning: unknown[10.0.0.4]: SASL LOGIN authentication failed: UGFzc3dvcmQ6",
        arrival(),
    );
    assert_eq!(json.event().category, texts(&["email", "authentication"]));
    assert_eq!(json.event().type_val, texts(&["protocol"]));
    assert_eq!(json.event().outcome.as_deref(), Some("failure"));
    assert_eq!(json.event().severity, Some(300));
    assert_eq!(json.log().level.as_deref(), Some("warning"));
    assert_eq!(json.source().ip.as_deref(), Some("10.0.0.4"));
    assert_eq!(
        json.message.as_deref(),
        Some("unknown[10.0.0.4]: SASL LOGIN authentication failed: UGFzc3dvcmQ6")
    );
    assert!(json.network.is_none());
}

#[test]
fn smtpd_mail_open_stream_with_sasl_user() {
    let mut json = converted(
        "Nov 16 13:27:38 mx postfix/smtpd[7]: 4F2A1C0A3B: client=a.example[10.0.0.5], sasl_method=PLAIN, sasl_username=alice@example.com",
        arrival(),
    );
    assert_eq!(json.event().category, texts(&["email", "authentication"]));
    assert_eq!(json.event().type_val, texts(&["connection"]));
    assert_eq!(json.event().outcome.as_deref(), Some("success"));
    assert_eq!(json.transaction().id.as_deref(), Some("mx.4F2A1C0A3B"));
    assert_eq!(json.user().name.as_deref(), Some("alice@example.com"));
    assert_eq!(json.source().domain.as_deref(), Some("a.example"));
    assert_eq!(json.source().ip.as_deref(), Some("10.0.0.5"));
}

#[test]
fn smtpd_mail_open_stream_without_pairs() {
    let mut json = converted(
        "Nov 16 13:27:38 mx postfix/smtpd[7]: 4F2A1C0A3B: client=a.example[10.0.0.5]",
        arrival(),
    );
    assert_eq!(json.event().category, texts(&["email"]));
    assert_eq!(json.transaction().id.as_deref(), Some("mx.4F2A1C0A3B"));
    assert!(json.user.is_none());
}

#[test]
fn smtpd_noqueue_names_no_transaction() {
    let mut json = converted(
        "Nov 16 13:27:38 mx postfix/smtpd[7]: NOQUEUE: client=a.example[10.0.0.5]",
        arrival(),
    );
    assert!(json.transaction.is_none());
    assert_eq!(json.event().type_val, texts(&["connection"]));
}

#[test]
fn smtpd_other_message_is_kept_as_message() {
    let mut json = converted("Nov 16 13:27:38 mx postfix/smtpd[7]: timeout after END-OF-MESSAGE", arrival());
    assert_eq!(json.message.as_deref(), Some("timeout after END-OF-MESSAGE"));
    assert_eq!(json.event().category, texts(&["email"]));
    assert!(json.event().type_val.is_empty());
    assert_eq!(json.event().severity, Some(200));
}

#[test]
fn a_shape_that_leaves_text_unread_is_not_taken() {
    let mut json = converted(
        "Nov 16 13:27:38 mx postfix/smtpd[7]: connect from a.example[10.0.0.2] and more",
        arrival(),
    );
    assert_eq!(json.event().kind, None);
    assert_eq!(json.message.as_deref(), Some("connect from a.example[10.0.0.2] and more"));
    assert_eq!(json.event().category, texts(&["email"]));
    assert!(json.event().type_val.is_empty());
    assert!(json.source.is_none());
    assert!(json.network.is_none());

    let mut json = converted(
        "Nov 16 13:27:38 mx postfix/smtpd[7]: 4F2A1C0A3B: client=a.example[10.0.0.5], sasl_username=bob; x",
        arrival(),
    );
    assert_eq!(json.event().category, texts(&["email"]));
    assert!(json.user.is_none());
    assert!(json.transaction.is_none());

    let mut json = converted(
        "Nov 16 13:27:38 mx postfix/postfix-script[55]: starting the Postfix mail system again",
        arrival(),
    );
    assert_eq!(json.event().category, texts(&["email"]));
    assert_eq!(json.event().outcome, None);
    assert_eq!(json.message.as_deref(), Some("starting the Postfix mail system again"));

    let mut json = converted(
        "Nov 16 13:30:01 mx postfix/anvil[99]: statistics: max cache size 4 at Nov 16 13:25:01 sharp",
        arrival(),
    );
    assert_eq!(json.event().end, None);
    assert_eq!(json.event().kind.as_deref(), Some("metric"));
}

#[test]
fn every_line_with_the_skeleton_parses() {
    for message in [
        "",
        " ",
        "connect from",
        "connect from [",
        "lost connection after",
        "lost connection after DATA from x",
        "warning: ",
        "warning: warning: x",
        "NOQUEUE: reject: RCPT from x[1.2.3.4]: 554 5.7.1",
        "statistics: max connection rate 1/60s for (smtp:1.2.3.4) at Nov 16",
        "ünïcödé ✓",
    ] {
        for process in ["postfix/smtpd", "postfix/postfix-script", "postfix/anvil", "postfix/master", "postfix", "postfix/cleanup"] {
            let line = format!("Nov 16 13:27:38 mx {}[1]: {}", process, message);
            let parsed = parse_postfix_line(&chars(&line));
            assert!(parsed.is_some(), "{}", line);
            assert_eq!(parsed.unwrap().message.end, line.chars().count(), "{}", line);
        }
    }
}

#[test]
fn unparseable_line_is_passed_through() {
    let line = "this is not a postfix line";
    let mut json = converted(line, arrival());
    assert!(json.log.is_none());
    assert_eq!(json.message.as_deref(), Some(line));
    assert_eq!(json.error().message.as_deref(), Some(line));
    let event = json.event();
    assert_eq!(event.kind.as_deref(), Some("pipeline_error"));
    assert_eq!(event.severity, Some(300));
    assert_eq!(event.outcome.as_deref(), Some("failure"));
    assert_eq!(event.module.as_deref(), Some("postfix"));
    assert_eq!(event.original, None);
    assert_eq!(json.service().type_val.as_deref(), Some("postfix"));
    assert_eq!(json.timestamp, None);
}

#[test]
fn empty_line_is_passed_through() {
    let mut json = converted("", arrival());
    assert_eq!(json.message.as_deref(), Some(""));
    assert_eq!(json.event().kind.as_deref(), Some("pipeline_error"));
}

#[test]
fn missing_line_is_reported() {
    let mut json = FluentBitJson::new();
    json.message = Some("old".to_string());
    convert_postfix_logs(&mut json, &arrival());
    assert_eq!(
        json.message.as_deref(),
        Some("fluent-ecs postfix parser failed: no log line passed.")
    );
    let event = json.event();
    assert_eq!(event.kind.as_deref(), Some("pipeline_error"));
    assert_eq!(event.severity, Some(300));
    assert_eq!(event.outcome.as_deref(), Some("failure"));
    assert_eq!(event.module.as_deref(), Some("postfix"));
    assert!(json.error.is_none());
    assert!(json.service.is_none());
    assert_eq!(json.misc, texts(&["message:old"]));
}

#[test]
fn a_message_beside_the_line_goes_to_misc() {
    let mut json = FluentBitJson::new();
    json.message = Some("kept".to_string());
    json.log = Some(LogOrString::String("Nov 16 13:27:38 mx postfix/qmgr[3]: removed".to_string()));
    convert_postfix_logs(&mut json, &arrival());
    assert_eq!(json.message.as_deref(), Some("removed"));
    assert_eq!(json.misc, texts(&["message:kept"]));
}

#[test]
fn typed_log_counts_as_missing_line_and_stays() {
    let mut json = FluentBitJson::new();
    json.log().level = Some("info".to_string());
    convert_postfix_logs(&mut json, &arrival());
    assert_eq!(json.event().kind.as_deref(), Some("pipeline_error"));
    assert_eq!(json.log().level.as_deref(), Some("info"));
}

#[test]
fn december_line_arriving_in_january_is_of_last_year() {
    // arrival 2024-01-01T00:00:05Z
    let event_date = Timestamp { secs: 1704067205, nanos: 0, offset: 0 };
    let json = converted("Dec 31 23:59:59 mx postfix/master[1]: daemon started -- version 3.5.6", event_date);
    assert_eq!(json.timestamp, Some(Timestamp { secs: 1704067199, nanos: 0, offset: 0 }));
}

#[test]
fn january_line_arriving_in_january_is_of_this_year() {
    // arrival 2024-01-15T10:00:00Z
    let event_date = Timestamp { secs: 1705312800, nanos: 0, offset: 0 };
    let json = converted("Jan  2 03:04:05 mx postfix/master[1]: reload", event_date);
    // 2024-01-02T03:04:05Z
    assert_eq!(json.timestamp, Some(Timestamp { secs: 1672628645 + 365 * 86400, nanos: 0, offset: 0 }));
}

#[test]
fn december_line_arriving_in_february_is_of_this_year() {
    // arrival 2024-02-15T10:00:00Z
    let event_date = Timestamp { secs: 1707991200, nanos: 0, offset: 0 };
    let json = converted("Dec 15 01:02:03 mx postfix/master[1]: reload", event_date);
    // 2024-12-15T01:02:03Z
    assert_eq!(json.timestamp, Some(Timestamp { secs: 1702602123 + 366 * 86400, nanos: 0, offset: 0 }));
}

#[test]
fn arrival_month_is_read_on_the_clock_of_the_arrival() {
    // 2023-12-31T23:30:00Z is already January on a clock one hour ahead.
    let event_date = Timestamp { secs: 1704065400, nanos: 0, offset: 3600 };
    let json = converted("Dec 31 23:29:59 mx postfix/master[1]: reload", event_date);
    // the line is of 2023
    assert_eq!(json.timestamp, Some(Timestamp { secs: 1704065399, nanos: 0, offset: 0 }));
    let utc = Timestamp { secs: 1704065400, nanos: 0, offset: 0 };
    let json = converted("Dec 31 23:29:59 mx postfix/master[1]: reload", utc);
    assert_eq!(json.timestamp, Some(Timestamp { secs: 1704065399, nanos: 0, offset: 0 }));
}

#[test]
fn a_day_that_does_not_exist_gives_no_timestamp() {
    let json = converted("Feb 30 01:02:03 mx postfix/master[1]: reload", arrival());
    assert_eq!(json.timestamp, None);
    let json = converted("Nov 16 24:00:00 mx postfix/master[1]: reload", arrival());
    assert_eq!(json.timestamp, None);
    let json = converted("Nov 16 23:60:00 mx postfix/master[1]: reload", arrival());
    assert_eq!(json.timestamp, None);
    let json = converted("Nov 0 23:00:00 mx postfix/master[1]: reload", arrival());
    assert_eq!(json.timestamp, None);
}

#[test]
fn a_parsed_line_replaces_an_earlier_timestamp() {
    let mut json = FluentBitJson::new();
    json.timestamp = Some(arrival());
    json.log = Some(LogOrString::String("Feb 30 01:02:03 mx postfix/master[1]: reload".to_string()));
    convert_postfix_logs(&mut json, &arrival());
    assert_eq!(json.timestamp, None);
}

#[test]
fn infer_year_follows_the_rule() {
    assert_eq!(infer_year(12, 2024, 1), 2023);
    assert_eq!(infer_year(12, 2024, 12), 2024);
    assert_eq!(infer_year(12, 2024, 2), 2024);
    assert_eq!(infer_year(1, 2024, 1), 2024);
    assert_eq!(infer_year(11, 2024, 1), 2024);
    assert_eq!(infer_year(1, 2024, 12), 2024);
    assert_eq!(infer_year(12, 0, 1), -1);
    for month in 0..=13u32 {
        for arrival_month in 1..=12u32 {
            let expected = if month == 12 && arrival_month == 1 { 1999 } else { 2000 };
            assert_eq!(infer_year(month, 2000, arrival_month), expected);
        }
    }
}

#[test]
fn resolve_date_gives_the_utc_instant() {
    assert_eq!(
        resolve_date(11, 16, 13, 27, 38, Some(2023), Some(11)),
        Some(Timestamp { secs: 1700141258, nanos: 0, offset: 0 })
    );
    assert_eq!(
        resolve_date(12, 31, 23, 59, 59, Some(2024), Some(1)),
        Some(Timestamp { secs: 1704067199, nanos: 0, offset: 0 })
    );
    assert_eq!(resolve_date(2, 29, 0, 0, 0, Some(2024), Some(3)), Some(Timestamp { secs: 1709164800, nanos: 0, offset: 0 }));
    assert_eq!(resolve_date(2, 29, 0, 0, 0, Some(2023), Some(3)), None);
    assert_eq!(resolve_date(11, 16, 1000, 27, 38, Some(2023), Some(11)), None);
    assert_eq!(resolve_date(11, 16, 13, 1000, 38, Some(2023), Some(11)), None);
    assert_eq!(resolve_date(11, 16, 13, 27, 1000, Some(2023), Some(11)), None);
    assert_eq!(resolve_date(0, 16, 13, 27, 38, Some(2023), Some(11)), None);
    assert_eq!(resolve_date(11, 0, 13, 27, 38, Some(2023), Some(11)), None);
    assert_eq!(resolve_date(11, 16, 13, 27, 38, None, Some(11)), None);
    assert_eq!(resolve_date(11, 16, 13, 27, 38, Some(2023), None), None);
}

#[test]
fn month_names() {
    let names = ["Jan", "Feb", "Mar", "Apr", "May", "Jun", "Jul", "Aug", "Sep", "Oct", "Nov", "Dec"];
    for (i, name) in names.iter().enumerate() {
        assert_eq!(month_of(name), i as u32 + 1);
    }
    assert_eq!(month_of("jan"), 0);
    assert_eq!(month_of("January"), 0);
    assert_eq!(month_of(""), 0);
}

#[test]
fn postfix_script_starting() {
    let mut json = converted("Nov 16 13:27:38 mx postfix/postfix-script[55]: starting the Postfix mail system", arrival());
    assert_eq!(json.process().name.as_deref(), Some("postfix-script"));
    assert_eq!(json.process().pid, Some(55));
    assert_eq!(json.event().category, texts(&["email", "process"]));
    assert_eq!(json.event().type_val, texts(&["start"]));
    assert_eq!(json.event().outcome.as_deref(), Some("unknown"));
    assert_eq!(json.event().severity, Some(200));
}

#[test]
fn postfix_script_group_writable_warning() {
    let mut json = converted(
        "Nov 16 13:27:38 mx postfix/postfix-script[55]: warning: group or other writable: /etc/postfix/./main.cf",
        arrival(),
    );
    assert_eq!(json.event().category, texts(&["email", "file"]));
    assert_eq!(json.event().type_val, texts(&["info"]));
    assert_eq!(json.event().severity, Some(300));
    assert_eq!(json.log().level.as_deref(), Some("warning"));
    assert_eq!(json.message.as_deref(), Some("group or other writable: /etc/postfix/./main.cf"));
    assert_eq!(json.event().outcome, None);
}

#[test]
fn anvil_rate_statistics() {
    let mut json = converted(
        "Nov 16 13:30:01 mx postfix/anvil[99]: statistics: max connection rate 2/60s for (smtp:10.0.0.7) at Nov 16 13:25:01",
        arrival(),
    );
    assert_eq!(json.process().name.as_deref(), Some("anvil"));
    assert_eq!(json.process().pid, Some(99));
    let event = json.event();
    assert_eq!(event.kind.as_deref(), Some("metric"));
    assert_eq!(event.severity, Some(100));
    assert_eq!(event.category, texts(&["email", "network"]));
    assert_eq!(event.type_val, texts(&["connection"]));
    assert_eq!(event.end, Some(Timestamp { secs: 1700141101, nanos: 0, offset: 0 }));
    assert_eq!(json.network().protocol.as_deref(), Some("smtp"));
    assert_eq!(json.network().transport, None);
    assert_eq!(json.source().ip.as_deref(), Some("10.0.0.7"));
    assert!(json.log.is_none());
}

#[test]
fn anvil_count_statistics_of_messages() {
    let mut json = converted(
        "Nov 16 13:30:01 mx postfix/anvil[99]: statistics: max message count 3 for (submission:10.0.0.8) at Nov 16 13:25:01 or so",
        arrival(),
    );
    assert_eq!(json.event().category, texts(&["email", "network"]));
    assert!(json.event().type_val.is_empty());
    assert_eq!(json.network().protocol.as_deref(), Some("submission"));
    assert_eq!(json.source().ip.as_deref(), Some("10.0.0.8"));
    assert_eq!(json.event().end, Some(Timestamp { secs: 1700141101, nanos: 0, offset: 0 }));
}

#[test]
fn anvil_cache_statistics() {
    let mut json = converted(
        "Nov 16 13:30:01 mx postfix/anvil[99]: statistics: max cache size 4 at Nov 16 13:25:01",
        arrival(),
    );
    assert_eq!(json.event().category, texts(&["email"]));
    assert_eq!(json.event().end, Some(Timestamp { secs: 1700141101, nanos: 0, offset: 0 }));
    assert!(json.network.is_none());
    assert!(json.source.is_none());
}

#[test]
fn anvil_does_not_read_a_warning_mark() {
    let mut json = converted("Nov 16 13:30:01 mx postfix/anvil[99]: warning: something", arrival());
    assert_eq!(json.event().severity, Some(100));
    assert_eq!(json.message.as_deref(), Some("warning: something"));
    assert!(json.log.is_none());
}

#[test]
fn master_daemon_started() {
    let mut json = converted(
        "Nov 16 13:27:38 mx postfix/master[1]: daemon started -- version 3.5.6, configuration /etc/postfix",
        arrival(),
    );
    assert_eq!(json.process().name.as_deref(), Some("master"));
    assert_eq!(json.event().category, texts(&["email", "process"]));
    assert_eq!(json.event().type_val, texts(&["start"]));
    assert_eq!(json.event().outcome.as_deref(), Some("success"));
}

#[test]
fn main_process_has_no_name() {
    let mut json = converted("Nov 16 13:27:38 mx postfix[12]: Postfix is running with backwards-compatible default settings", arrival());
    assert_eq!(json.process().name, None);
    assert_eq!(json.process().pid, Some(12));
    assert_eq!(json.event().category, texts(&["email"]));
    assert_eq!(
        json.message.as_deref(),
        Some("Postfix is running with backwards-compatible default settings")
    );
}

#[test]
fn other_process_gives_name_pid_and_message() {
    let mut json = converted("Nov 16 13:27:38 mx postfix/qmgr[321]: 4F2A1C0A3B: removed", arrival());
    assert_eq!(json.process().name.as_deref(), Some("qmgr"));
    assert_eq!(json.process().pid, Some(321));
    assert_eq!(json.message.as_deref(), Some("4F2A1C0A3B: removed"));
    assert_eq!(json.event().severity, Some(200));
    assert!(json.event().category.is_empty());
}

#[test]
fn a_pid_that_does_not_fit_is_left_out() {
    let mut json = converted("Nov 16 13:27:38 mx postfix/qmgr[99999999999]: x", arrival());
    assert_eq!(json.process().pid, None);
    assert_eq!(json.process().name.as_deref(), Some("qmgr"));
}

#[test]
fn grammar_takes_the_line_apart() {
    let line = "Nov  6 03:04:05 mail.host postfix/smtpd[42]: warning: hello";
    let parsed = parse_postfix_line(&chars(line)).unwrap();
    assert_eq!(text(line, parsed.time.month), "Nov");
    assert_eq!(text(line, parsed.time.day), "6");
    assert_eq!(text(line, parsed.time.hour), "03");
    assert_eq!(text(line, parsed.time.minute), "04");
    assert_eq!(text(line, parsed.time.second), "05");
    assert_eq!(text(line, parsed.host), "mail.host");
    assert_eq!(text(line, parsed.pid), "42");
    assert_eq!(text(line, parsed.message), "hello");
    assert_eq!(parsed.process, ProcessMessage::Smtpd { warning: true, shape: SmtpdShape::Other });
}

#[test]
fn grammar_rejects_lines_off_the_skeleton() {
    for line in [
        "",
        "Nov 16 13:27:38 mx",
        "Nov 16 13:27:38 mx postfix/smtpd[]: x",
        "Nov 16 13:27:38 mx postfix/smtpd[12] x",
        "Nov 16 13:27:38 mx postfix/smtpd[12]:x",
        "Nov 16 13:27:38 mx dovecot[12]: x",
        "Nov 16 13:27:38  mx postfix/smtpd[12]: x",
        "nov 16 13:27:38 mx postfix/smtpd[12]: x",
        "Nov 161 13:27:38 mx postfix/smtpd[12]: x",
        "Nov 16 13:27 mx postfix/smtpd[12]: x",
        "Nov 16 13:27:38 mx postfix/[12]: x",
        " Nov 16 13:27:38 mx postfix/smtpd[12]: x",
    ] {
        assert_eq!(parse_postfix_line(&chars(line)), None, "{}", line);
    }
}

#[test]
fn grammar_picks_the_process_by_name() {
    let cases: [(&str, ProcessMessage); 6] = [
        ("postfix/smtpd[1]: x", ProcessMessage::Smtpd { warning: false, shape: SmtpdShape::Other }),
        (
            "postfix/postfix-script[1]: x",
            ProcessMessage::PostfixScript { warning: false, shape: ScriptShape::Other },
        ),
        ("postfix/anvil[1]: x", ProcessMessage::Anvil { shape: AnvilShape::Other }),
        ("postfix/master[1]: x", ProcessMessage::Master { warning: false, shape: MasterShape::Other }),
        ("postfix[1]: warning: x", ProcessMessage::Main { warning: true }),
        (
            "postfix/smtpd2[1]: x",
            ProcessMessage::Other { name: Span { start: 27, end: 33 }, warning: false },
        ),
    ];
    for (rest, expected) in cases {
        let line = format!("Nov 16 13:27:38 mx {}", rest);
        let parsed = parse_postfix_line(&chars(&line)).unwrap();
        assert_eq!(parsed.process, expected, "{}", line);
        assert_eq!(parsed.message.end, line.chars().count());
    }
}

#[test]
fn grammar_empty_message() {
    let line = "Nov 16 13:27:38 mx postfix/smtpd[1]: ";
    let parsed = parse_postfix_line(&chars(line)).unwrap();
    assert_eq!(parsed.message, Span { start: 37, end: 37 });
}

#[test]
fn grammar_reads_pairs_one_by_one() {
    let list = "sasl_method=PLAIN, sasl_username=bob orig_client=x,";
    let s = chars(list);
    let (first, next) = parse_pair(&s, 0).unwrap();
    assert_eq!(text(list, first.key), "sasl_method");
    assert_eq!(text(list, first.value), "PLAIN");
    assert_eq!(next, 19);
    let (second, next) = parse_pair(&s, next).unwrap();
    assert_eq!(text(list, second.key), "sasl_username");
    assert_eq!(text(list, second.value), "bob");
    let (third, next) = parse_pair(&s, next).unwrap();
    assert_eq!(text(list, third.key), "orig_client");
    assert_eq!(text(list, third.value), "x");
    assert_eq!(next, s.len());
    assert_eq!(parse_pair(&s, next), None);
    assert_eq!(parse_pair(&chars("Key=v"), 0), None);
    assert_eq!(parse_pair(&chars("key="), 0), None);
    assert_eq!(parse_pair(&chars("key"), 0), None);
}

#[test]
fn convert_date_reads_the_fields_of_the_line() {
    let line = "Dec 31 23:59:59 mx postfix/master[1]: reload";
    let s = chars(line);
    let parsed = parse_postfix_line(&s).unwrap();
    // arrival 2024-01-01T00:00:05Z: the line is of 2023
    let january = Timestamp { secs: 1704067205, nanos: 0, offset: 0 };
    assert_eq!(
        convert_date(&s, &parsed.time, &january),
        Some(Timestamp { secs: 1704067199, nanos: 0, offset: 0 })
    );
    // arrival 2024-02-15T10:00:00Z: the line is of 2024
    let february = Timestamp { secs: 1707991200, nanos: 0, offset: 0 };
    assert_eq!(
        convert_date(&s, &parsed.time, &february),
        Some(Timestamp { secs: 1704067199 + 366 * 86400, nanos: 0, offset: 0 })
    );
    let got = convert_date(&s, &parsed.time, &january).unwrap();
    let shown = chrono::DateTime::from_timestamp(got.secs, got.nanos).unwrap();
    assert_eq!(chrono::Datelike::year(&shown), 2023);
    assert_eq!(chrono::Datelike::month(&shown), 12);
    assert_eq!(chrono::Datelike::day(&shown), 31);
}

#[test]
fn every_day_of_the_calendar_names_an_instant() {
    let days = [31, 29, 31, 30, 31, 30, 31, 31, 30, 31, 30, 31];
    for (i, last) in days.iter().enumerate() {
        let month = i as u32 + 1;
        assert!(resolve_date(month, 1, 0, 0, 0, Some(2024), Some(6)).is_some());
        assert!(resolve_date(month, *last, 23, 59, 59, Some(2024), Some(6)).is_some());
        assert!(resolve_date(month, last + 1, 0, 0, 0, Some(2024), Some(6)).is_none());
    }
    assert!(resolve_date(2, 29, 0, 0, 0, Some(1900), Some(6)).is_none());
    assert!(resolve_date(2, 29, 0, 0, 0, Some(2000), Some(6)).is_some());
    assert!(resolve_date(2, 29, 0, 0, 0, Some(-4), Some(6)).is_some());
    assert!(resolve_date(1, 1, 0, 0, 0, Some(262_142), Some(6)).is_some());
    assert!(resolve_date(1, 1, 0, 0, 0, Some(262_143), Some(6)).is_none());
    assert!(resolve_date(1, 1, 0, 0, 0, Some(-262_143), Some(6)).is_some());
    assert!(resolve_date(1, 1, 0, 0, 0, Some(-262_144), Some(6)).is_none());
    assert!(resolve_date(12, 31, 0, 0, 0, Some(-262_143), Some(1)).is_none());
}
