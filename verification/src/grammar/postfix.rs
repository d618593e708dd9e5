//! The grammar of a Postfix syslog line:
//! `timestamp host postfix/process[pid]: message`, where the message is read
//! according to the process that wrote it.
//!
//! Nothing is skipped between the parts of a rule. For each process the shapes
//! of its message are tried in a fixed order. A shape is taken only where it
//! reads the message to the end of the line; a message that fits none of them is
//! read as it is. So a line fails to parse only where it does not start with
//! timestamp, host, process and pid.

use crate::grammar::{
    eat, eat_one, lit, one_of, or, rest_end, scan_rest, scan_some, some_run, Class, Span,
};
use vstd::prelude::*;

verus! {

/// The fields of a syslog timestamp, which has no year.
#[derive(Clone, Copy, Debug, PartialEq, Eq, Structural)]
pub struct TimeFields {
    pub month: Span,
    pub day: Span,
    pub hour: Span,
    pub minute: Span,
    pub second: Span,
}

/// A peer written as `hostname[ip]`.
#[derive(Clone, Copy, Debug, PartialEq, Eq, Structural)]
pub struct Peer {
    pub hostname: Span,
    pub ip: Span,
}

/// One `key=value` pair of a list.
#[derive(Clone, Copy, Debug, PartialEq, Eq, Structural)]
pub struct Pair {
    pub key: Span,
    pub value: Span,
}

/// The shapes of a message of `smtpd`.
#[derive(Clone, Copy, Debug, PartialEq, Eq, Structural)]
pub enum SmtpdShape {
    Connect { peer: Peer },
    Disconnect { peer: Peer },
    LostConnection { reason: Span, peer: Peer },
    AuthFailed { peer: Peer },
    MailOpenStream { queue_id: Span, client: Peer, pairs: Span },
    Other,
}

/// The shapes of a message of `postfix-script`.
#[derive(Clone, Copy, Debug, PartialEq, Eq, Structural)]
pub enum ScriptShape {
    StartingPostfix,
    GroupWritable,
    Other,
}

/// The shapes of a message of `anvil`.
#[derive(Clone, Copy, Debug, PartialEq, Eq, Structural)]
pub enum AnvilShape {
    Rate { metric: Span, protocol: Span, ip: Span, at: TimeFields },
    Count { metric: Span, protocol: Span, ip: Span, at: TimeFields },
    Cache { at: TimeFields },
    Other,
}

/// The shapes of a message of `master`.
#[derive(Clone, Copy, Debug, PartialEq, Eq, Structural)]
pub enum MasterShape {
    DaemonStarted,
    Other,
}

/// The process that wrote the line, with what its message holds. `warning`
/// tells whether the message was marked as a warning; `anvil` writes no such
/// mark.
#[allow(inconsistent_fields)]
#[derive(Clone, Copy, Debug, PartialEq, Eq, Structural)]
pub enum ProcessMessage {
    Smtpd { warning: bool, shape: SmtpdShape },
    PostfixScript { warning: bool, shape: ScriptShape },
    Anvil { shape: AnvilShape },
    Master { warning: bool, shape: MasterShape },
    Main { warning: bool },
    Other { name: Span, warning: bool },
}

/// A Postfix line, taken apart. `message` is the stretch after the process, the
/// pid and the warning mark; it runs to the end of the line.
#[derive(Clone, Copy, Debug, PartialEq, Eq, Structural)]
pub struct PostfixLog {
    pub time: TimeFields,
    pub host: Span,
    pub pid: Span,
    pub message: Span,
    pub process: ProcessMessage,
}

impl TimeFields {
    /// Every stretch lies inside a line of `len` characters.
    pub open spec fn within(self, len: nat) -> bool {
        self.month.within(len) && self.day.within(len) && self.hour.within(len)
            && self.minute.within(len) && self.second.within(len)
    }
}

impl Peer {
    /// Every stretch lies inside a line of `len` characters.
    pub open spec fn within(self, len: nat) -> bool {
        self.hostname.within(len) && self.ip.within(len)
    }
}

impl Pair {
    /// Every stretch lies inside a line of `len` characters.
    pub open spec fn within(self, len: nat) -> bool {
        self.key.within(len) && self.value.within(len)
    }
}

impl SmtpdShape {
    /// Every stretch lies inside a line of `len` characters.
    pub open spec fn within(self, len: nat) -> bool {
        match self {
            SmtpdShape::Connect { peer } => peer.within(len),
            SmtpdShape::Disconnect { peer } => peer.within(len),
            SmtpdShape::LostConnection { reason, peer } => reason.within(len) && peer.within(len),
            SmtpdShape::AuthFailed { peer } => peer.within(len),
            SmtpdShape::MailOpenStream { queue_id, client, pairs } => queue_id.within(len)
                && client.within(len) && pairs.within(len),
            SmtpdShape::Other => true,
        }
    }
}

impl AnvilShape {
    /// Every stretch lies inside a line of `len` characters.
    pub open spec fn within(self, len: nat) -> bool {
        match self {
            AnvilShape::Rate { metric, protocol, ip, at } => metric.within(len) && protocol.within(
                len,
            ) && ip.within(len) && at.within(len),
            AnvilShape::Count { metric, protocol, ip, at } => metric.within(len)
                && protocol.within(len) && ip.within(len) && at.within(len),
            AnvilShape::Cache { at } => at.within(len),
            AnvilShape::Other => true,
        }
    }
}

impl ProcessMessage {
    /// Every stretch lies inside a line of `len` characters.
    pub open spec fn within(self, len: nat) -> bool {
        match self {
            ProcessMessage::Smtpd { warning, shape } => shape.within(len),
            ProcessMessage::Anvil { shape } => shape.within(len),
            ProcessMessage::Other { name, warning } => name.within(len),
            _ => true,
        }
    }
}

impl PostfixLog {
    /// Every stretch of the line that the parts name lies inside the line.
    pub open spec fn within(self, len: nat) -> bool {
        self.time.within(len) && self.host.within(len) && self.pid.within(len)
            && self.message.within(len) && self.process.within(len)
    }
}

/// One or two digits.
pub open spec fn digits12(s: Seq<char>, at: usize) -> Option<usize> {
    match one_of(s, at, Class::Digit) {
        None => None,
        Some(a) => or(one_of(s, a, Class::Digit), Some(a)),
    }
}

/// The English three-letter name of a month.
pub open spec fn month_at(s: Seq<char>, at: usize) -> Option<usize> {
    or(
        lit(s, at, "Jan"@),
        or(
            lit(s, at, "Feb"@),
            or(
                lit(s, at, "Mar"@),
                or(
                    lit(s, at, "Apr"@),
                    or(
                        lit(s, at, "May"@),
                        or(
                            lit(s, at, "Jun"@),
                            or(
                                lit(s, at, "Jul"@),
                                or(
                                    lit(s, at, "Aug"@),
                                    or(
                                        lit(s, at, "Sep"@),
                                        or(
                                            lit(s, at, "Oct"@),
                                            or(lit(s, at, "Nov"@), lit(s, at, "Dec"@)),
                                        ),
                                    ),
                                ),
                            ),
                        ),
                    ),
                ),
            ),
        ),
    )
}

/// `month day hour:minute:second`, with one or more spaces after month and day.
pub open spec fn timestamp_at(s: Seq<char>, at: usize) -> Option<(TimeFields, usize)> {
    match month_at(s, at) {
        None => None,
        Some(a) => match some_run(s, a, Class::Space) {
            None => None,
            Some(b) => match digits12(s, b) {
                None => None,
                Some(c) => match some_run(s, c, Class::Space) {
                    None => None,
                    Some(d) => match digits12(s, d) {
                        None => None,
                        Some(e) => match lit(s, e, ":"@) {
                            None => None,
                            Some(f) => match digits12(s, f) {
                                None => None,
                                Some(g) => match lit(s, g, ":"@) {
                                    None => None,
                                    Some(h) => match digits12(s, h) {
                                        None => None,
                                        Some(i) => Some(
                                            (
                                                TimeFields {
                                                    month: Span { start: at, end: a },
                                                    day: Span { start: b, end: c },
                                                    hour: Span { start: d, end: e },
                                                    minute: Span { start: f, end: g },
                                                    second: Span { start: h, end: i },
                                                },
                                                i,
                                            ),
                                        ),
                                    },
                                },
                            },
                        },
                    },
                },
            },
        },
    }
}

/// `hostname[ip]`, neither part with a bracket in it.
pub open spec fn peer_at(s: Seq<char>, at: usize) -> Option<(Peer, usize)> {
    match some_run(s, at, Class::NotBracket) {
        None => None,
        Some(h) => match lit(s, h, "["@) {
            None => None,
            Some(a) => match some_run(s, a, Class::NotBracket) {
                None => None,
                Some(b) => match lit(s, b, "]"@) {
                    None => None,
                    Some(e) => Some(
                        (
                            Peer {
                                hostname: Span { start: at, end: h },
                                ip: Span { start: a, end: b },
                            },
                            e,
                        ),
                    ),
                },
            },
        },
    }
}

/// The optional mark `warning: `: whether it stands at `at`, and where the
/// message goes on.
pub open spec fn log_level_at(s: Seq<char>, at: usize) -> (bool, usize) {
    match lit(s, at, "warning: "@) {
        Some(e) => (true, e),
        None => (false, at),
    }
}

/// `[pid]: ` with a pid of digits: the pid, and where the message starts.
pub open spec fn pid_at(s: Seq<char>, at: usize) -> Option<(Span, usize)> {
    match lit(s, at, "["@) {
        None => None,
        Some(a) => match some_run(s, a, Class::Digit) {
            None => None,
            Some(b) => match lit(s, b, "]: "@) {
                None => None,
                Some(e) => Some((Span { start: a, end: b }, e)),
            },
        },
    }
}

/// The process name `name` and the pid after it.
pub open spec fn header_at(s: Seq<char>, at: usize, name: Seq<char>) -> Option<(Span, usize)> {
    match lit(s, at, name) {
        None => None,
        Some(a) => pid_at(s, a),
    }
}

/// A queue id: `NOQUEUE`, or else letters and digits.
pub open spec fn queue_id_at(s: Seq<char>, at: usize) -> Option<usize> {
    or(lit(s, at, "NOQUEUE"@), some_run(s, at, Class::AlphaNumeric))
}

/// `key=value`, with an optional comma and an optional space after it.
pub open spec fn pair_at(s: Seq<char>, at: usize) -> Option<(Pair, usize)> {
    match some_run(s, at, Class::LowerKey) {
        None => None,
        Some(a) => match lit(s, a, "="@) {
            None => None,
            Some(b) => match some_run(s, b, Class::PlainValue) {
                None => None,
                Some(c) => {
                    let d = match lit(s, c, ","@) {
                        Some(d) => d,
                        None => c,
                    };
                    let e = match lit(s, d, " "@) {
                        Some(e) => e,
                        None => d,
                    };
                    Some((Pair { key: Span { start: at, end: a }, value: Span { start: b, end: c } }, e))
                },
            },
        },
    }
}

/// Where the pairs that start at `at` end.
pub open spec fn pairs_end(s: Seq<char>, at: usize) -> usize
    decreases s.len() - at,
{
    match pair_at(s, at) {
        Some((_, e)) => if at < e <= s.len() {
            pairs_end(s, e)
        } else {
            at
        },
        None => at,
    }
}

/// `connect from hostname[ip]`, and nothing after it.
pub open spec fn smtpd_connect(s: Seq<char>, at: usize) -> Option<(SmtpdShape, usize)> {
    match lit(s, at, "connect from "@) {
        None => None,
        Some(a) => match peer_at(s, a) {
            None => None,
            Some((peer, e)) => if e == s.len() {
                Some((SmtpdShape::Connect { peer }, e))
            } else {
                None
            },
        },
    }
}

/// `disconnect from hostname[ip]`, and whatever follows.
pub open spec fn smtpd_disconnect(s: Seq<char>, at: usize) -> Option<(SmtpdShape, usize)> {
    match lit(s, at, "disconnect from "@) {
        None => None,
        Some(a) => match peer_at(s, a) {
            None => None,
            Some((peer, b)) => Some((SmtpdShape::Disconnect { peer }, rest_end(s))),
        },
    }
}

/// `lost connection after STAGE from hostname[ip]`, and whatever follows.
pub open spec fn smtpd_lost_connection(s: Seq<char>, at: usize) -> Option<(SmtpdShape, usize)> {
    match lit(s, at, "lost connection after "@) {
        None => None,
        Some(a) => match some_run(s, a, Class::NotSpace) {
            None => None,
            Some(b) => match lit(s, b, " from "@) {
                None => None,
                Some(c) => match peer_at(s, c) {
                    None => None,
                    Some((peer, d)) => Some(
                        (
                            SmtpdShape::LostConnection { reason: Span { start: at, end: b }, peer },
                            rest_end(s),
                        ),
                    ),
                },
            },
        },
    }
}

/// `hostname[ip]: SASL METHOD authentication failed: `, and whatever follows.
pub open spec fn smtpd_auth_failed(s: Seq<char>, at: usize) -> Option<(SmtpdShape, usize)> {
    match peer_at(s, at) {
        None => None,
        Some((peer, a)) => match lit(s, a, ": SASL "@) {
            None => None,
            Some(b) => match some_run(s, b, Class::NotSpace) {
                None => None,
                Some(c) => match lit(s, c, " authentication failed: "@) {
                    None => None,
                    Some(d) => Some((SmtpdShape::AuthFailed { peer }, rest_end(s))),
                },
            },
        },
    }
}

/// `queue-id: client=hostname[ip]`, with an optional list of pairs after `, `.
pub open spec fn smtpd_mail_open_stream(s: Seq<char>, at: usize) -> Option<(SmtpdShape, usize)> {
    match queue_id_at(s, at) {
        None => None,
        Some(a) => match lit(s, a, ": client="@) {
            None => None,
            Some(b) => match peer_at(s, b) {
                None => None,
                Some((client, c)) => {
                    let queue_id = Span { start: at, end: a };
                    let pairs = match lit(s, c, ", "@) {
                        Some(d) => Span { start: d, end: pairs_end(s, d) },
                        None => Span { start: c, end: c },
                    };
                    if pairs.end == s.len() {
                        Some((SmtpdShape::MailOpenStream { queue_id, client, pairs }, pairs.end))
                    } else {
                        None
                    }
                },
            },
        },
    }
}

/// The message of `smtpd`: the first shape that reads it to the end.
pub open spec fn smtpd_message(s: Seq<char>, at: usize) -> (SmtpdShape, usize) {
    match or(
        smtpd_connect(s, at),
        or(
            smtpd_disconnect(s, at),
            or(
                smtpd_lost_connection(s, at),
                or(smtpd_auth_failed(s, at), smtpd_mail_open_stream(s, at)),
            ),
        ),
    ) {
        Some(r) => r,
        None => (SmtpdShape::Other, rest_end(s)),
    }
}

/// The message of `postfix-script`: the first shape that reads it to the end.
pub open spec fn script_message(s: Seq<char>, at: usize) -> (ScriptShape, usize) {
    if lit(s, at, "starting the Postfix mail system"@) == Some(rest_end(s)) {
        (ScriptShape::StartingPostfix, rest_end(s))
    } else if lit(s, at, "group or other writable:"@) is Some {
        (ScriptShape::GroupWritable, rest_end(s))
    } else {
        (ScriptShape::Other, rest_end(s))
    }
}

/// The kind of limit that a statistic of `anvil` is about.
pub open spec fn metric_at(s: Seq<char>, at: usize) -> Option<usize> {
    or(
        lit(s, at, "connection"@),
        or(
            lit(s, at, "message"@),
            or(lit(s, at, "recipient"@), or(lit(s, at, "newtls"@), lit(s, at, "auth"@))),
        ),
    )
}

/// `(protocol:ip) at timestamp`, as it ends a statistic of `anvil`.
pub open spec fn anvil_client(s: Seq<char>, at: usize) -> Option<(Span, Span, TimeFields, usize)> {
    match some_run(s, at, Class::NotColon) {
        None => None,
        Some(a) => match lit(s, a, ":"@) {
            None => None,
            Some(b) => match some_run(s, b, Class::NotBracket) {
                None => None,
                Some(c) => match lit(s, c, ") at "@) {
                    None => None,
                    Some(d) => match timestamp_at(s, d) {
                        None => None,
                        Some((t, e)) => Some(
                            (Span { start: at, end: a }, Span { start: b, end: c }, t, e),
                        ),
                    },
                },
            },
        },
    }
}

/// `statistics: max KIND rate N/Ns for (protocol:ip) at timestamp`, and whatever
/// follows.
pub open spec fn anvil_rate(s: Seq<char>, at: usize) -> Option<(AnvilShape, usize)> {
    match lit(s, at, "statistics: max "@) {
        None => None,
        Some(a) => match metric_at(s, a) {
            None => None,
            Some(b) => match lit(s, b, " rate "@) {
                None => None,
                Some(c) => match some_run(s, c, Class::Digit) {
                    None => None,
                    Some(d) => match lit(s, d, "/"@) {
                        None => None,
                        Some(e) => match some_run(s, e, Class::Digit) {
                            None => None,
                            Some(f) => match lit(s, f, "s for ("@) {
                                None => None,
                                Some(g) => match anvil_client(s, g) {
                                    None => None,
                                    Some((protocol, ip, t, h)) => Some(
                                        (
                                            AnvilShape::Rate {
                                                metric: Span { start: a, end: b },
                                                protocol,
                                                ip,
                                                at: t,
                                            },
                                            rest_end(s),
                                        ),
                                    ),
                                },
                            },
                        },
                    },
                },
            },
        },
    }
}

/// `statistics: max KIND count N for (protocol:ip) at timestamp`, and whatever
/// follows.
pub open spec fn anvil_count(s: Seq<char>, at: usize) -> Option<(AnvilShape, usize)> {
    match lit(s, at, "statistics: max "@) {
        None => None,
        Some(a) => match metric_at(s, a) {
            None => None,
            Some(b) => match lit(s, b, " count "@) {
                None => None,
                Some(c) => match some_run(s, c, Class::Digit) {
                    None => None,
                    Some(d) => match lit(s, d, " for ("@) {
                        None => None,
                        Some(e) => match anvil_client(s, e) {
                            None => None,
                            Some((protocol, ip, t, f)) => Some(
                                (
                                    AnvilShape::Count {
                                        metric: Span { start: a, end: b },
                                        protocol,
                                        ip,
                                        at: t,
                                    },
                                    rest_end(s),
                                ),
                            ),
                        },
                    },
                },
            },
        },
    }
}

/// `statistics: max cache size N at timestamp`, and nothing after it.
pub open spec fn anvil_cache(s: Seq<char>, at: usize) -> Option<(AnvilShape, usize)> {
    match lit(s, at, "statistics: max cache size "@) {
        None => None,
        Some(a) => match some_run(s, a, Class::Digit) {
            None => None,
            Some(b) => match lit(s, b, " at "@) {
                None => None,
                Some(c) => match timestamp_at(s, c) {
                    None => None,
                    Some((t, e)) => if e == s.len() {
                        Some((AnvilShape::Cache { at: t }, e))
                    } else {
                        None
                    },
                },
            },
        },
    }
}

/// The message of `anvil`: the first shape that reads it to the end.
pub open spec fn anvil_message(s: Seq<char>, at: usize) -> (AnvilShape, usize) {
    match or(anvil_rate(s, at), or(anvil_count(s, at), anvil_cache(s, at))) {
        Some(r) => r,
        None => (AnvilShape::Other, rest_end(s)),
    }
}

/// The message of `master`: the first shape that reads it to the end.
pub open spec fn master_message(s: Seq<char>, at: usize) -> (MasterShape, usize) {
    match lit(s, at, "daemon started -- "@) {
        Some(a) => (MasterShape::DaemonStarted, rest_end(s)),
        None => (MasterShape::Other, rest_end(s)),
    }
}

/// What a process rule yields: the pid, where the message starts, what the
/// message holds, and where the rule ends.
pub type ProcessMatch = (Span, usize, ProcessMessage, usize);

/// `postfix/smtpd[pid]: `, the optional warning mark, and the message.
pub open spec fn process_smtpd(s: Seq<char>, at: usize) -> Option<ProcessMatch> {
    match header_at(s, at, "postfix/smtpd"@) {
        None => None,
        Some((pid, a)) => {
            let (warning, m) = log_level_at(s, a);
            let (shape, e) = smtpd_message(s, m);
            Some((pid, m, ProcessMessage::Smtpd { warning, shape }, e))
        },
    }
}

/// `postfix/postfix-script[pid]: `, the optional warning mark, and the message.
pub open spec fn process_postfix_script(s: Seq<char>, at: usize) -> Option<ProcessMatch> {
    match header_at(s, at, "postfix/postfix-script"@) {
        None => None,
        Some((pid, a)) => {
            let (warning, m) = log_level_at(s, a);
            let (shape, e) = script_message(s, m);
            Some((pid, m, ProcessMessage::PostfixScript { warning, shape }, e))
        },
    }
}

/// `postfix/anvil[pid]: ` and the message.
pub open spec fn process_anvil(s: Seq<char>, at: usize) -> Option<ProcessMatch> {
    match header_at(s, at, "postfix/anvil"@) {
        None => None,
        Some((pid, m)) => {
            let (shape, e) = anvil_message(s, m);
            Some((pid, m, ProcessMessage::Anvil { shape }, e))
        },
    }
}

/// `postfix/master[pid]: `, the optional warning mark, and the message.
pub open spec fn process_master(s: Seq<char>, at: usize) -> Option<ProcessMatch> {
    match header_at(s, at, "postfix/master"@) {
        None => None,
        Some((pid, a)) => {
            let (warning, m) = log_level_at(s, a);
            let (shape, e) = master_message(s, m);
            Some((pid, m, ProcessMessage::Master { warning, shape }, e))
        },
    }
}

/// `postfix[pid]: `, the optional warning mark, and the message.
pub open spec fn process_main(s: Seq<char>, at: usize) -> Option<ProcessMatch> {
    match header_at(s, at, "postfix"@) {
        None => None,
        Some((pid, a)) => {
            let (warning, m) = log_level_at(s, a);
            Some((pid, m, ProcessMessage::Main { warning }, rest_end(s)))
        },
    }
}

/// `postfix/name[pid]: ` for any name without brackets, the optional warning mark,
/// and the message.
pub open spec fn process_other(s: Seq<char>, at: usize) -> Option<ProcessMatch> {
    match lit(s, at, "postfix/"@) {
        None => None,
        Some(a) => match some_run(s, a, Class::NotBracket) {
            None => None,
            Some(b) => match pid_at(s, b) {
                None => None,
                Some((pid, c)) => {
                    let (warning, m) = log_level_at(s, c);
                    Some(
                        (
                            pid,
                            m,
                            ProcessMessage::Other { name: Span { start: a, end: b }, warning },
                            rest_end(s),
                        ),
                    )
                },
            },
        },
    }
}

/// The process and its message: the first process rule that matches.
pub open spec fn process_message(s: Seq<char>, at: usize) -> Option<ProcessMatch> {
    or(
        process_smtpd(s, at),
        or(
            process_postfix_script(s, at),
            or(
                process_anvil(s, at),
                or(process_master(s, at), or(process_main(s, at), process_other(s, at))),
            ),
        ),
    )
}

/// A whole line as a Postfix line; `None` where the line does not start with
/// timestamp, host, process and pid.
pub open spec fn postfix_log(s: Seq<char>) -> Option<PostfixLog> {
    match timestamp_at(s, 0) {
        None => None,
        Some((time, a)) => match lit(s, a, " "@) {
            None => None,
            Some(b) => match some_run(s, b, Class::NotSpace) {
                None => None,
                Some(c) => match lit(s, c, " "@) {
                    None => None,
                    Some(d) => match process_message(s, d) {
                        None => None,
                        Some((pid, m, process, e)) => Some(
                            PostfixLog {
                                time,
                                host: Span { start: b, end: c },
                                pid,
                                message: Span { start: m, end: e },
                                process,
                            },
                        ),
                    },
                },
            },
        },
    }
}

/// Whether the line starts as every Postfix line does: with timestamp and host,
/// then `postfix[pid]: ` or `postfix/process[pid]: `.
pub open spec fn has_skeleton(s: Seq<char>) -> bool {
    match timestamp_at(s, 0) {
        None => false,
        Some((_, a)) => match lit(s, a, " "@) {
            None => false,
            Some(b) => match some_run(s, b, Class::NotSpace) {
                None => false,
                Some(c) => match lit(s, c, " "@) {
                    None => false,
                    Some(d) => process_main(s, d) is Some || process_other(s, d) is Some,
                },
            },
        },
    }
}

fn parse_digits12(s: &[char], at: usize) -> (r: Option<usize>)
    requires
        at <= s@.len(),
    ensures
        r == digits12(s@, at),
        r matches Some(e) ==> at < e <= s@.len(),
{
    let a = eat_one(s, at, Class::Digit)?;
    match eat_one(s, a, Class::Digit) {
        Some(b) => Some(b),
        None => Some(a),
    }
}

fn parse_month(s: &[char], at: usize) -> (r: Option<usize>)
    requires
        at <= s@.len(),
    ensures
        r == month_at(s@, at),
        r matches Some(e) ==> at <= e <= s@.len(),
{
    let r = eat(s, at, "Jan");
    if r.is_some() {
        return r;
    }
    let r = eat(s, at, "Feb");
    if r.is_some() {
        return r;
    }
    let r = eat(s, at, "Mar");
    if r.is_some() {
        return r;
    }
    let r = eat(s, at, "Apr");
    if r.is_some() {
        return r;
    }
    let r = eat(s, at, "May");
    if r.is_some() {
        return r;
    }
    let r = eat(s, at, "Jun");
    if r.is_some() {
        return r;
    }
    let r = eat(s, at, "Jul");
    if r.is_some() {
        return r;
    }
    let r = eat(s, at, "Aug");
    if r.is_some() {
        return r;
    }
    let r = eat(s, at, "Sep");
    if r.is_some() {
        return r;
    }
    let r = eat(s, at, "Oct");
    if r.is_some() {
        return r;
    }
    let r = eat(s, at, "Nov");
    if r.is_some() {
        return r;
    }
    eat(s, at, "Dec")
}

fn parse_timestamp(s: &[char], at: usize) -> (r: Option<(TimeFields, usize)>)
    requires
        at <= s@.len(),
    ensures
        r == timestamp_at(s@, at),
        r matches Some((t, e)) ==> t.within(s@.len()) && at <= e <= s@.len(),
{
    let a = parse_month(s, at)?;
    let b = scan_some(s, a, Class::Space)?;
    let c = parse_digits12(s, b)?;
    let d = scan_some(s, c, Class::Space)?;
    let e = parse_digits12(s, d)?;
    let f = eat(s, e, ":")?;
    let g = parse_digits12(s, f)?;
    let h = eat(s, g, ":")?;
    let i = parse_digits12(s, h)?;
    Some(
        (
            TimeFields {
                month: Span { start: at, end: a },
                day: Span { start: b, end: c },
                hour: Span { start: d, end: e },
                minute: Span { start: f, end: g },
                second: Span { start: h, end: i },
            },
            i,
        ),
    )
}

fn parse_peer(s: &[char], at: usize) -> (r: Option<(Peer, usize)>)
    requires
        at <= s@.len(),
    ensures
        r == peer_at(s@, at),
        r matches Some((p, e)) ==> p.within(s@.len()) && at <= e <= s@.len(),
{
    let h = scan_some(s, at, Class::NotBracket)?;
    let a = eat(s, h, "[")?;
    let b = scan_some(s, a, Class::NotBracket)?;
    let e = eat(s, b, "]")?;
    Some((Peer { hostname: Span { start: at, end: h }, ip: Span { start: a, end: b } }, e))
}

fn parse_log_level(s: &[char], at: usize) -> (r: (bool, usize))
    requires
        at <= s@.len(),
    ensures
        r == log_level_at(s@, at),
        at <= r.1 <= s@.len(),
{
    match eat(s, at, "warning: ") {
        Some(e) => (true, e),
        None => (false, at),
    }
}

fn parse_pid(s: &[char], at: usize) -> (r: Option<(Span, usize)>)
    requires
        at <= s@.len(),
    ensures
        r == pid_at(s@, at),
        r matches Some((p, e)) ==> p.within(s@.len()) && at <= e <= s@.len(),
{
    let a = eat(s, at, "[")?;
    let b = scan_some(s, a, Class::Digit)?;
    let e = eat(s, b, "]: ")?;
    Some((Span { start: a, end: b }, e))
}

fn parse_header(s: &[char], at: usize, name: &str) -> (r: Option<(Span, usize)>)
    requires
        at <= s@.len(),
    ensures
        r == header_at(s@, at, name@),
        r matches Some((p, e)) ==> p.within(s@.len()) && at <= e <= s@.len(),
{
    let a = eat(s, at, name)?;
    parse_pid(s, a)
}

fn parse_queue_id(s: &[char], at: usize) -> (r: Option<usize>)
    requires
        at <= s@.len(),
    ensures
        r == queue_id_at(s@, at),
        r matches Some(e) ==> at <= e <= s@.len(),
{
    let r = eat(s, at, "NOQUEUE");
    if r.is_some() {
        return r;
    }
    scan_some(s, at, Class::AlphaNumeric)
}

/// Reads one `key=value` pair of a list at `at`.
pub fn parse_pair(s: &[char], at: usize) -> (r: Option<(Pair, usize)>)
    requires
        at <= s@.len(),
    ensures
        r == pair_at(s@, at),
        r matches Some((p, e)) ==> p.within(s@.len()) && at < e <= s@.len(),
{
    let a = scan_some(s, at, Class::LowerKey)?;
    let b = eat(s, a, "=")?;
    let c = scan_some(s, b, Class::PlainValue)?;
    let d = match eat(s, c, ",") {
        Some(d) => d,
        None => c,
    };
    let e = match eat(s, d, " ") {
        Some(e) => e,
        None => d,
    };
    Some((Pair { key: Span { start: at, end: a }, value: Span { start: b, end: c } }, e))
}

fn parse_pairs_end(s: &[char], at: usize) -> (r: usize)
    requires
        at <= s@.len(),
    ensures
        r == pairs_end(s@, at),
        at <= r <= s@.len(),
{
    let mut q: usize = at;
    loop
        invariant
            at <= q <= s@.len(),
            pairs_end(s@, q) == pairs_end(s@, at),
        ensures
            at <= q <= s@.len(),
            q == pairs_end(s@, at),
        decreases s@.len() - q,
    {
        match parse_pair(s, q) {
            Some((_, e)) => {
                q = e;
            },
            None => {
                break ;
            },
        }
    }
    q
}

fn parse_smtpd_connect(s: &[char], at: usize) -> (r: Option<(SmtpdShape, usize)>)
    requires
        at <= s@.len(),
    ensures
        r == smtpd_connect(s@, at),
        r matches Some((p, e)) ==> p.within(s@.len()) && at <= e == s@.len(),
{
    let a = eat(s, at, "connect from ")?;
    let (peer, e) = parse_peer(s, a)?;
    if e == s.len() {
        Some((SmtpdShape::Connect { peer }, e))
    } else {
        None
    }
}

fn parse_smtpd_disconnect(s: &[char], at: usize) -> (r: Option<(SmtpdShape, usize)>)
    requires
        at <= s@.len(),
    ensures
        r == smtpd_disconnect(s@, at),
        r matches Some((p, e)) ==> p.within(s@.len()) && at <= e == s@.len(),
{
    let a = eat(s, at, "disconnect from ")?;
    let (peer, b) = parse_peer(s, a)?;
    Some((SmtpdShape::Disconnect { peer }, scan_rest(s)))
}

fn parse_smtpd_lost_connection(s: &[char], at: usize) -> (r: Option<(SmtpdShape, usize)>)
    requires
        at <= s@.len(),
    ensures
        r == smtpd_lost_connection(s@, at),
        r matches Some((p, e)) ==> p.within(s@.len()) && at <= e == s@.len(),
{
    let a = eat(s, at, "lost connection after ")?;
    let b = scan_some(s, a, Class::NotSpace)?;
    let c = eat(s, b, " from ")?;
    let (peer, d) = parse_peer(s, c)?;
    Some(
        (SmtpdShape::LostConnection { reason: Span { start: at, end: b }, peer }, scan_rest(s)),
    )
}

fn parse_smtpd_auth_failed(s: &[char], at: usize) -> (r: Option<(SmtpdShape, usize)>)
    requires
        at <= s@.len(),
    ensures
        r == smtpd_auth_failed(s@, at),
        r matches Some((p, e)) ==> p.within(s@.len()) && at <= e == s@.len(),
{
    let (peer, a) = parse_peer(s, at)?;
    let b = eat(s, a, ": SASL ")?;
    let c = scan_some(s, b, Class::NotSpace)?;
    let d = eat(s, c, " authentication failed: ")?;
    Some((SmtpdShape::AuthFailed { peer }, scan_rest(s)))
}

fn parse_smtpd_mail_open_stream(s: &[char], at: usize) -> (r: Option<(SmtpdShape, usize)>)
    requires
        at <= s@.len(),
    ensures
        r == smtpd_mail_open_stream(s@, at),
        r matches Some((p, e)) ==> p.within(s@.len()) && at <= e == s@.len(),
{
    let a = parse_queue_id(s, at)?;
    let b = eat(s, a, ": client=")?;
    let (client, c) = parse_peer(s, b)?;
    let queue_id = Span { start: at, end: a };
    let pairs = match eat(s, c, ", ") {
        Some(d) => Span { start: d, end: parse_pairs_end(s, d) },
        None => Span { start: c, end: c },
    };
    if pairs.end == s.len() {
        Some((SmtpdShape::MailOpenStream { queue_id, client, pairs }, pairs.end))
    } else {
        None
    }
}

fn parse_smtpd_message(s: &[char], at: usize) -> (r: (SmtpdShape, usize))
    requires
        at <= s@.len(),
    ensures
        r == smtpd_message(s@, at),
        r.0.within(s@.len()),
        at <= r.1 == s@.len(),
{
    match parse_smtpd_connect(s, at) {
        Some(r) => {
            return r;
        },
        None => {},
    }
    match parse_smtpd_disconnect(s, at) {
        Some(r) => {
            return r;
        },
        None => {},
    }
    match parse_smtpd_lost_connection(s, at) {
        Some(r) => {
            return r;
        },
        None => {},
    }
    match parse_smtpd_auth_failed(s, at) {
        Some(r) => {
            return r;
        },
        None => {},
    }
    match parse_smtpd_mail_open_stream(s, at) {
        Some(r) => {
            return r;
        },
        None => {},
    }
    (SmtpdShape::Other, scan_rest(s))
}

fn parse_script_message(s: &[char], at: usize) -> (r: (ScriptShape, usize))
    requires
        at <= s@.len(),
    ensures
        r == script_message(s@, at),
        at <= r.1 == s@.len(),
{
    let end = scan_rest(s);
    if eat(s, at, "starting the Postfix mail system") == Some(end) {
        (ScriptShape::StartingPostfix, end)
    } else if eat(s, at, "group or other writable:").is_some() {
        (ScriptShape::GroupWritable, end)
    } else {
        (ScriptShape::Other, end)
    }
}

fn parse_metric(s: &[char], at: usize) -> (r: Option<usize>)
    requires
        at <= s@.len(),
    ensures
        r == metric_at(s@, at),
        r matches Some(e) ==> at <= e <= s@.len(),
{
    let r = eat(s, at, "connection");
    if r.is_some() {
        return r;
    }
    let r = eat(s, at, "message");
    if r.is_some() {
        return r;
    }
    let r = eat(s, at, "recipient");
    if r.is_some() {
        return r;
    }
    let r = eat(s, at, "newtls");
    if r.is_some() {
        return r;
    }
    eat(s, at, "auth")
}

fn parse_anvil_client(s: &[char], at: usize) -> (r: Option<(Span, Span, TimeFields, usize)>)
    requires
        at <= s@.len(),
    ensures
        r == anvil_client(s@, at),
        r matches Some((protocol, ip, t, e)) ==> protocol.within(s@.len()) && ip.within(s@.len())
            && t.within(s@.len()) && at <= e <= s@.len(),
{
    let a = scan_some(s, at, Class::NotColon)?;
    let b = eat(s, a, ":")?;
    let c = scan_some(s, b, Class::NotBracket)?;
    let d = eat(s, c, ") at ")?;
    let (t, e) = parse_timestamp(s, d)?;
    Some((Span { start: at, end: a }, Span { start: b, end: c }, t, e))
}

fn parse_anvil_rate(s: &[char], at: usize) -> (r: Option<(AnvilShape, usize)>)
    requires
        at <= s@.len(),
    ensures
        r == anvil_rate(s@, at),
        r matches Some((p, e)) ==> p.within(s@.len()) && at <= e == s@.len(),
{
    let a = eat(s, at, "statistics: max ")?;
    let b = parse_metric(s, a)?;
    let c = eat(s, b, " rate ")?;
    let d = scan_some(s, c, Class::Digit)?;
    let e = eat(s, d, "/")?;
    let f = scan_some(s, e, Class::Digit)?;
    let g = eat(s, f, "s for (")?;
    let (protocol, ip, t, h) = parse_anvil_client(s, g)?;
    Some(
        (
            AnvilShape::Rate { metric: Span { start: a, end: b }, protocol, ip, at: t },
            scan_rest(s),
        ),
    )
}

fn parse_anvil_count(s: &[char], at: usize) -> (r: Option<(AnvilShape, usize)>)
    requires
        at <= s@.len(),
    ensures
        r == anvil_count(s@, at),
        r matches Some((p, e)) ==> p.within(s@.len()) && at <= e == s@.len(),
{
    let a = eat(s, at, "statistics: max ")?;
    let b = parse_metric(s, a)?;
    let c = eat(s, b, " count ")?;
    let d = scan_some(s, c, Class::Digit)?;
    let e = eat(s, d, " for (")?;
    let (protocol, ip, t, f) = parse_anvil_client(s, e)?;
    Some(
        (
            AnvilShape::Count { metric: Span { start: a, end: b }, protocol, ip, at: t },
            scan_rest(s),
        ),
    )
}

fn parse_anvil_cache(s: &[char], at: usize) -> (r: Option<(AnvilShape, usize)>)
    requires
        at <= s@.len(),
    ensures
        r == anvil_cache(s@, at),
        r matches Some((p, e)) ==> p.within(s@.len()) && at <= e == s@.len(),
{
    let a = eat(s, at, "statistics: max cache size ")?;
    let b = scan_some(s, a, Class::Digit)?;
    let c = eat(s, b, " at ")?;
    let (t, e) = parse_timestamp(s, c)?;
    if e == s.len() {
        Some((AnvilShape::Cache { at: t }, e))
    } else {
        None
    }
}

fn parse_anvil_message(s: &[char], at: usize) -> (r: (AnvilShape, usize))
    requires
        at <= s@.len(),
    ensures
        r == anvil_message(s@, at),
        r.0.within(s@.len()),
        at <= r.1 == s@.len(),
{
    match parse_anvil_rate(s, at) {
        Some(r) => {
            return r;
        },
        None => {},
    }
    match parse_anvil_count(s, at) {
        Some(r) => {
            return r;
        },
        None => {},
    }
    match parse_anvil_cache(s, at) {
        Some(r) => {
            return r;
        },
        None => {},
    }
    (AnvilShape::Other, scan_rest(s))
}

fn parse_master_message(s: &[char], at: usize) -> (r: (MasterShape, usize))
    requires
        at <= s@.len(),
    ensures
        r == master_message(s@, at),
        at <= r.1 == s@.len(),
{
    match eat(s, at, "daemon started -- ") {
        Some(a) => (MasterShape::DaemonStarted, scan_rest(s)),
        None => (MasterShape::Other, scan_rest(s)),
    }
}

/// What holds of every process match: its parts lie inside the line, and it
/// ends where the line ends.
pub open spec fn match_within(m: ProcessMatch, at: usize, len: nat) -> bool {
    m.0.within(len) && at <= m.1 <= m.3 == len && m.2.within(len)
}

fn parse_process_smtpd(s: &[char], at: usize) -> (r: Option<ProcessMatch>)
    requires
        at <= s@.len(),
    ensures
        r == process_smtpd(s@, at),
        r matches Some(m) ==> match_within(m, at, s@.len()),
{
    let (pid, a) = parse_header(s, at, "postfix/smtpd")?;
    let (warning, m) = parse_log_level(s, a);
    let (shape, e) = parse_smtpd_message(s, m);
    Some((pid, m, ProcessMessage::Smtpd { warning, shape }, e))
}

fn parse_process_postfix_script(s: &[char], at: usize) -> (r: Option<ProcessMatch>)
    requires
        at <= s@.len(),
    ensures
        r == process_postfix_script(s@, at),
        r matches Some(m) ==> match_within(m, at, s@.len()),
{
    let (pid, a) = parse_header(s, at, "postfix/postfix-script")?;
    let (warning, m) = parse_log_level(s, a);
    let (shape, e) = parse_script_message(s, m);
    Some((pid, m, ProcessMessage::PostfixScript { warning, shape }, e))
}

fn parse_process_anvil(s: &[char], at: usize) -> (r: Option<ProcessMatch>)
    requires
        at <= s@.len(),
    ensures
        r == process_anvil(s@, at),
        r matches Some(m) ==> match_within(m, at, s@.len()),
{
    let (pid, m) = parse_header(s, at, "postfix/anvil")?;
    let (shape, e) = parse_anvil_message(s, m);
    Some((pid, m, ProcessMessage::Anvil { shape }, e))
}

fn parse_process_master(s: &[char], at: usize) -> (r: Option<ProcessMatch>)
    requires
        at <= s@.len(),
    ensures
        r == process_master(s@, at),
        r matches Some(m) ==> match_within(m, at, s@.len()),
{
    let (pid, a) = parse_header(s, at, "postfix/master")?;
    let (warning, m) = parse_log_level(s, a);
    let (shape, e) = parse_master_message(s, m);
    Some((pid, m, ProcessMessage::Master { warning, shape }, e))
}

fn parse_process_main(s: &[char], at: usize) -> (r: Option<ProcessMatch>)
    requires
        at <= s@.len(),
    ensures
        r == process_main(s@, at),
        r matches Some(m) ==> match_within(m, at, s@.len()),
{
    let (pid, a) = parse_header(s, at, "postfix")?;
    let (warning, m) = parse_log_level(s, a);
    Some((pid, m, ProcessMessage::Main { warning }, scan_rest(s)))
}

fn parse_process_other(s: &[char], at: usize) -> (r: Option<ProcessMatch>)
    requires
        at <= s@.len(),
    ensures
        r == process_other(s@, at),
        r matches Some(m) ==> match_within(m, at, s@.len()),
{
    let a = eat(s, at, "postfix/")?;
    let b = scan_some(s, a, Class::NotBracket)?;
    let (pid, c) = parse_pid(s, b)?;
    let (warning, m) = parse_log_level(s, c);
    Some(
        (pid, m, ProcessMessage::Other { name: Span { start: a, end: b }, warning }, scan_rest(s)),
    )
}

fn parse_process_message(s: &[char], at: usize) -> (r: Option<ProcessMatch>)
    requires
        at <= s@.len(),
    ensures
        r == process_message(s@, at),
        r matches Some(m) ==> match_within(m, at, s@.len()),
{
    let r = parse_process_smtpd(s, at);
    if r.is_some() {
        return r;
    }
    let r = parse_process_postfix_script(s, at);
    if r.is_some() {
        return r;
    }
    let r = parse_process_anvil(s, at);
    if r.is_some() {
        return r;
    }
    let r = parse_process_master(s, at);
    if r.is_some() {
        return r;
    }
    let r = parse_process_main(s, at);
    if r.is_some() {
        return r;
    }
    parse_process_other(s, at)
}

/// Takes a line apart as a Postfix line.
pub fn parse_postfix_line(s: &[char]) -> (r: Option<PostfixLog>)
    ensures
        r == postfix_log(s@),
        r matches Some(log) ==> log.within(s@.len()) && log.message.end == s@.len(),
{
    let (time, a) = parse_timestamp(s, 0)?;
    let b = eat(s, a, " ")?;
    let c = scan_some(s, b, Class::NotSpace)?;
    let d = eat(s, c, " ")?;
    let (pid, m, process, e) = parse_process_message(s, d)?;
    Some(
        PostfixLog {
            time,
            host: Span { start: b, end: c },
            pid,
            message: Span { start: m, end: e },
            process,
        },
    )
}

} // verus!
