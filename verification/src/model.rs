//! The record: what comes in from the log collector and what goes out in the
//! canonical schema, in one struct that the converters rewrite in place.

pub mod ecs;
pub mod fluentbit;

use crate::json::{
    json_string, lookup, object_entries, object_new, object_remove, plain_text, string_at,
    val_to_string,
    value_as_str, JsonObject,
};
use crate::text::labelled;
use crate::time::Timestamp;
use serde_json::Value;
use vstd::prelude::*;
use vstd::string::StringExecFns;

verus! {

/// `event` as it arrives: either the typed sub-object or a plain text.
pub enum EventOrString {
    Event(ecs::Event),
    String(String),
}

/// The view of [`EventOrString`].
pub enum EventOrStringView {
    Event(ecs::EventView),
    String(Seq<char>),
}

impl DeepView for EventOrString {
    type V = EventOrStringView;

    open spec fn deep_view(&self) -> EventOrStringView {
        match self {
            EventOrString::Event(v) => EventOrStringView::Event(v.deep_view()),
            EventOrString::String(s) => EventOrStringView::String(s@),
        }
    }
}

impl View for EventOrString {
    type V = EventOrStringView;

    open spec fn view(&self) -> EventOrStringView {
        self.deep_view()
    }
}

/// `error` as it arrives: either the typed sub-object or a plain text.
pub enum ErrorOrString {
    Error(ecs::Error),
    String(String),
}

/// The view of [`ErrorOrString`].
pub enum ErrorOrStringView {
    Error(ecs::ErrorView),
    String(Seq<char>),
}

impl DeepView for ErrorOrString {
    type V = ErrorOrStringView;

    open spec fn deep_view(&self) -> ErrorOrStringView {
        match self {
            ErrorOrString::Error(v) => ErrorOrStringView::Error(v.deep_view()),
            ErrorOrString::String(s) => ErrorOrStringView::String(s@),
        }
    }
}

impl View for ErrorOrString {
    type V = ErrorOrStringView;

    open spec fn view(&self) -> ErrorOrStringView {
        self.deep_view()
    }
}

/// `log` as it arrives: either the typed sub-object or a plain text.
pub enum LogOrString {
    Log(ecs::Log),
    String(String),
}

/// The view of [`LogOrString`].
pub enum LogOrStringView {
    Log(ecs::LogView),
    String(Seq<char>),
}

impl DeepView for LogOrString {
    type V = LogOrStringView;

    open spec fn deep_view(&self) -> LogOrStringView {
        match self {
            LogOrString::Log(v) => LogOrStringView::Log(v.deep_view()),
            LogOrString::String(s) => LogOrStringView::String(s@),
        }
    }
}

impl View for LogOrString {
    type V = LogOrStringView;

    open spec fn view(&self) -> LogOrStringView {
        self.deep_view()
    }
}

/// One record on its way from the collector's shape to the canonical schema.
///
/// `other` holds every key of the input that no field claims. `misc` holds
/// `key:value` texts for data that was recognised but has no field of its own.
pub struct FluentBitJson {
    pub kubernetes: Option<fluentbit::Kubernetes>,
    pub timestamp: Option<Timestamp>,
    pub message: Option<String>,
    pub event: Option<EventOrString>,
    pub error: Option<ErrorOrString>,
    pub container: Option<ecs::Container>,
    pub host: Option<ecs::Host>,
    pub log: Option<LogOrString>,
    pub network: Option<ecs::Network>,
    pub orchestrator: Option<ecs::Orchestrator>,
    pub process: Option<ecs::Process>,
    pub user: Option<ecs::User>,
    pub source: Option<ecs::Source>,
    pub service: Option<ecs::Service>,
    pub transaction: Option<ecs::Transaction>,
    pub other: JsonObject,
    pub misc: Vec<String>,
}

/// The view of [`FluentBitJson`]: texts as sequences of characters, and the
/// unclaimed keys as a map from key to value.
pub struct FluentBitJsonView {
    pub kubernetes: Option<fluentbit::KubernetesView>,
    pub timestamp: Option<Timestamp>,
    pub message: Option<Seq<char>>,
    pub event: Option<EventOrStringView>,
    pub error: Option<ErrorOrStringView>,
    pub container: Option<ecs::ContainerView>,
    pub host: Option<ecs::HostView>,
    pub log: Option<LogOrStringView>,
    pub network: Option<ecs::NetworkView>,
    pub orchestrator: Option<ecs::OrchestratorView>,
    pub process: Option<ecs::ProcessView>,
    pub user: Option<ecs::UserView>,
    pub source: Option<ecs::SourceView>,
    pub service: Option<ecs::ServiceView>,
    pub transaction: Option<ecs::TransactionView>,
    pub other: Map<Seq<char>, Value>,
    pub misc: Seq<Seq<char>>,
}

impl DeepView for FluentBitJson {
    type V = FluentBitJsonView;

    open spec fn deep_view(&self) -> FluentBitJsonView {
        FluentBitJsonView {
            kubernetes: self.kubernetes.deep_view(),
            timestamp: self.timestamp,
            message: self.message.deep_view(),
            event: self.event.deep_view(),
            error: self.error.deep_view(),
            container: self.container.deep_view(),
            host: self.host.deep_view(),
            log: self.log.deep_view(),
            network: self.network.deep_view(),
            orchestrator: self.orchestrator.deep_view(),
            process: self.process.deep_view(),
            user: self.user.deep_view(),
            source: self.source.deep_view(),
            service: self.service.deep_view(),
            transaction: self.transaction.deep_view(),
            other: object_entries(self.other),
            misc: self.misc.deep_view(),
        }
    }
}

impl View for FluentBitJson {
    type V = FluentBitJsonView;

    open spec fn view(&self) -> FluentBitJsonView {
        self.deep_view()
    }
}

impl FluentBitJsonView {
    /// The record with nothing in it.
    pub open spec fn empty() -> FluentBitJsonView {
        FluentBitJsonView {
            kubernetes: None,
            timestamp: None,
            message: None,
            event: None,
            error: None,
            container: None,
            host: None,
            log: None,
            network: None,
            orchestrator: None,
            process: None,
            user: None,
            source: None,
            service: None,
            transaction: None,
            other: Map::empty(),
            misc: Seq::empty(),
        }
    }

    /// `container` as it is, or empty where there is none yet.
    pub open spec fn container_or_empty(self) -> ecs::ContainerView {
        match self.container {
            Some(v) => v,
            None => ecs::ContainerView::empty(),
        }
    }

    /// The record with `container` set to `v`.
    pub open spec fn with_container(self, v: ecs::ContainerView) -> FluentBitJsonView {
        FluentBitJsonView { container: Some(v), ..self }
    }

    /// `host` as it is, or empty where there is none yet.
    pub open spec fn host_or_empty(self) -> ecs::HostView {
        match self.host {
            Some(v) => v,
            None => ecs::HostView::empty(),
        }
    }

    /// The record with `host` set to `v`.
    pub open spec fn with_host(self, v: ecs::HostView) -> FluentBitJsonView {
        FluentBitJsonView { host: Some(v), ..self }
    }

    /// `network` as it is, or empty where there is none yet.
    pub open spec fn network_or_empty(self) -> ecs::NetworkView {
        match self.network {
            Some(v) => v,
            None => ecs::NetworkView::empty(),
        }
    }

    /// The record with `network` set to `v`.
    pub open spec fn with_network(self, v: ecs::NetworkView) -> FluentBitJsonView {
        FluentBitJsonView { network: Some(v), ..self }
    }

    /// `orchestrator` as it is, or empty where there is none yet.
    pub open spec fn orchestrator_or_empty(self) -> ecs::OrchestratorView {
        match self.orchestrator {
            Some(v) => v,
            None => ecs::OrchestratorView::empty(),
        }
    }

    /// The record with `orchestrator` set to `v`.
    pub open spec fn with_orchestrator(self, v: ecs::OrchestratorView) -> FluentBitJsonView {
        FluentBitJsonView { orchestrator: Some(v), ..self }
    }

    /// `process` as it is, or empty where there is none yet.
    pub open spec fn process_or_empty(self) -> ecs::ProcessView {
        match self.process {
            Some(v) => v,
            None => ecs::ProcessView::empty(),
        }
    }

    /// The record with `process` set to `v`.
    pub open spec fn with_process(self, v: ecs::ProcessView) -> FluentBitJsonView {
        FluentBitJsonView { process: Some(v), ..self }
    }

    /// `user` as it is, or empty where there is none yet.
    pub open spec fn user_or_empty(self) -> ecs::UserView {
        match self.user {
            Some(v) => v,
            None => ecs::UserView::empty(),
        }
    }

    /// The record with `user` set to `v`.
    pub open spec fn with_user(self, v: ecs::UserView) -> FluentBitJsonView {
        FluentBitJsonView { user: Some(v), ..self }
    }

    /// `source` as it is, or empty where there is none yet.
    pub open spec fn source_or_empty(self) -> ecs::SourceView {
        match self.source {
            Some(v) => v,
            None => ecs::SourceView::empty(),
        }
    }

    /// The record with `source` set to `v`.
    pub open spec fn with_source(self, v: ecs::SourceView) -> FluentBitJsonView {
        FluentBitJsonView { source: Some(v), ..self }
    }

    /// `service` as it is, or empty where there is none yet.
    pub open spec fn service_or_empty(self) -> ecs::ServiceView {
        match self.service {
            Some(v) => v,
            None => ecs::ServiceView::empty(),
        }
    }

    /// The record with `service` set to `v`.
    pub open spec fn with_service(self, v: ecs::ServiceView) -> FluentBitJsonView {
        FluentBitJsonView { service: Some(v), ..self }
    }

    /// `transaction` as it is, or empty where there is none yet.
    pub open spec fn transaction_or_empty(self) -> ecs::TransactionView {
        match self.transaction {
            Some(v) => v,
            None => ecs::TransactionView::empty(),
        }
    }

    /// The record with `transaction` set to `v`.
    pub open spec fn with_transaction(self, v: ecs::TransactionView) -> FluentBitJsonView {
        FluentBitJsonView { transaction: Some(v), ..self }
    }

    /// The typed `event` as it is; empty where there is none or only a plain text.
    pub open spec fn event_or_empty(self) -> ecs::EventView {
        match self.event {
            Some(EventOrStringView::Event(v)) => v,
            _ => ecs::EventView::empty(),
        }
    }

    /// The record with `event` set to `v`. A plain text that `event` arrived as is
    /// not lost: it is kept in `misc`.
    pub open spec fn with_event(self, v: ecs::EventView) -> FluentBitJsonView {
        FluentBitJsonView {
            event: Some(EventOrStringView::Event(v)),
            misc: self.misc_with(self.event_text(), "event"@),
            ..self
        }
    }

    /// The plain text that `event` arrived as, if it did.
    pub open spec fn event_text(self) -> Option<Seq<char>> {
        match self.event {
            Some(EventOrStringView::String(s)) => Some(s),
            _ => None,
        }
    }

    /// The typed `error` as it is; empty where there is none or only a plain text.
    pub open spec fn error_or_empty(self) -> ecs::ErrorView {
        match self.error {
            Some(ErrorOrStringView::Error(v)) => v,
            _ => ecs::ErrorView::empty(),
        }
    }

    /// The record with `error` set to `v`. A plain text that `error` arrived as is
    /// not lost: it is kept in `misc`.
    pub open spec fn with_error(self, v: ecs::ErrorView) -> FluentBitJsonView {
        FluentBitJsonView {
            error: Some(ErrorOrStringView::Error(v)),
            misc: self.misc_with(self.error_text(), "error"@),
            ..self
        }
    }

    /// The plain text that `error` arrived as, if it did.
    pub open spec fn error_text(self) -> Option<Seq<char>> {
        match self.error {
            Some(ErrorOrStringView::String(s)) => Some(s),
            _ => None,
        }
    }

    /// The typed `log` as it is; empty where there is none or only a plain text.
    pub open spec fn log_or_empty(self) -> ecs::LogView {
        match self.log {
            Some(LogOrStringView::Log(v)) => v,
            _ => ecs::LogView::empty(),
        }
    }

    /// The record with `log` set to `v`. A plain text that `log` arrived as is
    /// not lost: it is kept in `misc`.
    pub open spec fn with_log(self, v: ecs::LogView) -> FluentBitJsonView {
        FluentBitJsonView {
            log: Some(LogOrStringView::Log(v)),
            misc: self.misc_with(self.log_text(), "log"@),
            ..self
        }
    }

    /// The plain text that `log` arrived as, if it did.
    pub open spec fn log_text(self) -> Option<Seq<char>> {
        match self.log {
            Some(LogOrStringView::String(s)) => Some(s),
            _ => None,
        }
    }

    /// `misc` after the plain text that a field arrived as, if it did, has been
    /// written to it under `label`.
    pub open spec fn misc_with(self, text: Option<Seq<char>>, label: Seq<char>) -> Seq<Seq<char>> {
        match text {
            Some(text) => self.misc.push(labelled(label, text)),
            None => self.misc,
        }
    }

    /// The record with the message `text`. A message that the record had before is
    /// not lost: it is kept in `misc`.
    pub open spec fn with_message(self, text: Seq<char>) -> FluentBitJsonView {
        FluentBitJsonView {
            message: Some(text),
            misc: self.misc_with(self.message, "message"@),
            ..self
        }
    }

    /// The record without the key `key` among its unclaimed keys.
    pub open spec fn without(self, key: Seq<char>) -> FluentBitJsonView {
        FluentBitJsonView { other: self.other.remove(key), ..self }
    }

    /// The record with one more entry at the end of `misc`.
    pub open spec fn noting(self, entry: Seq<char>) -> FluentBitJsonView {
        FluentBitJsonView { misc: self.misc.push(entry), ..self }
    }

    /// The record after a text has been read from the key `key`: the key leaves
    /// the unclaimed keys, and a value that is no text is kept in `misc` under
    /// `label`.
    pub open spec fn text_read(self, key: Seq<char>, label: Seq<char>) -> FluentBitJsonView {
        match lookup(self.other, key) {
            Some(v) => match json_string(v) {
                Some(_) => self.without(key),
                None => self.without(key).noting(labelled(label, plain_text(v))),
            },
            None => self.without(key),
        }
    }

    /// The record after the key `key`, where it is there, has left the unclaimed
    /// keys and has been written to `misc` as `key:value`.
    pub open spec fn moved_to_misc(self, key: Seq<char>) -> FluentBitJsonView {
        match lookup(self.other, key) {
            Some(v) => self.without(key).noting(labelled(key, plain_text(v))),
            None => self,
        }
    }

    /// The record after each of `keys`, in order, has been moved to `misc`.
    pub open spec fn moved_all(self, keys: Seq<Seq<char>>) -> FluentBitJsonView
        decreases keys.len(),
    {
        if keys.len() == 0 {
            self
        } else {
            self.moved_all(keys.drop_last()).moved_to_misc(keys.last())
        }
    }
}

/// The texts of a list of keys.
pub open spec fn key_texts(keys: Seq<&'static str>) -> Seq<Seq<char>> {
    Seq::new(keys.len(), |i: int| keys[i]@)
}

impl FluentBitJson {
    /// A record with nothing in it.
    pub fn new() -> (r: FluentBitJson)
        ensures
            r@ == FluentBitJsonView::empty(),
    {
        let r = FluentBitJson {
            kubernetes: None,
            timestamp: None,
            message: None,
            event: None,
            error: None,
            container: None,
            host: None,
            log: None,
            network: None,
            orchestrator: None,
            process: None,
            user: None,
            source: None,
            service: None,
            transaction: None,
            other: object_new(),
            misc: Vec::new(),
        };
        assert(r.misc.deep_view() =~= Seq::<Seq<char>>::empty());
        r
    }

    /// The `container` of the record, created empty on first use.
    pub fn container(&mut self) -> (r: &mut ecs::Container)
        ensures
            r@ == old(self)@.container_or_empty(),
            final(self)@ == old(self)@.with_container(final(r)@),
    {
        if self.container.is_none() {
            self.container = Some(ecs::Container::new());
        }
        match &mut self.container {
            Some(v) => v,
            None => vstd::pervasive::unreached(),
        }
    }

    /// The `host` of the record, created empty on first use.
    pub fn host(&mut self) -> (r: &mut ecs::Host)
        ensures
            r@ == old(self)@.host_or_empty(),
            final(self)@ == old(self)@.with_host(final(r)@),
    {
        if self.host.is_none() {
            self.host = Some(ecs::Host::new());
        }
        match &mut self.host {
            Some(v) => v,
            None => vstd::pervasive::unreached(),
        }
    }

    /// The `network` of the record, created empty on first use.
    pub fn network(&mut self) -> (r: &mut ecs::Network)
        ensures
            r@ == old(self)@.network_or_empty(),
            final(self)@ == old(self)@.with_network(final(r)@),
    {
        if self.network.is_none() {
            self.network = Some(ecs::Network::new());
        }
        match &mut self.network {
            Some(v) => v,
            None => vstd::pervasive::unreached(),
        }
    }

    /// The `orchestrator` of the record, created empty on first use.
    pub fn orchestrator(&mut self) -> (r: &mut ecs::Orchestrator)
        ensures
            r@ == old(self)@.orchestrator_or_empty(),
            final(self)@ == old(self)@.with_orchestrator(final(r)@),
    {
        if self.orchestrator.is_none() {
            self.orchestrator = Some(ecs::Orchestrator::new());
        }
        match &mut self.orchestrator {
            Some(v) => v,
            None => vstd::pervasive::unreached(),
        }
    }

    /// The `process` of the record, created empty on first use.
    pub fn process(&mut self) -> (r: &mut ecs::Process)
        ensures
            r@ == old(self)@.process_or_empty(),
            final(self)@ == old(self)@.with_process(final(r)@),
    {
        if self.process.is_none() {
            self.process = Some(ecs::Process::new());
        }
        match &mut self.process {
            Some(v) => v,
            None => vstd::pervasive::unreached(),
        }
    }

    /// The `user` of the record, created empty on first use.
    pub fn user(&mut self) -> (r: &mut ecs::User)
        ensures
            r@ == old(self)@.user_or_empty(),
            final(self)@ == old(self)@.with_user(final(r)@),
    {
        if self.user.is_none() {
            self.user = Some(ecs::User::new());
        }
        match &mut self.user {
            Some(v) => v,
            None => vstd::pervasive::unreached(),
        }
    }

    /// The `source` of the record, created empty on first use.
    pub fn source(&mut self) -> (r: &mut ecs::Source)
        ensures
            r@ == old(self)@.source_or_empty(),
            final(self)@ == old(self)@.with_source(final(r)@),
    {
        if self.source.is_none() {
            self.source = Some(ecs::Source::new());
        }
        match &mut self.source {
            Some(v) => v,
            None => vstd::pervasive::unreached(),
        }
    }

    /// The `service` of the record, created empty on first use.
    pub fn service(&mut self) -> (r: &mut ecs::Service)
        ensures
            r@ == old(self)@.service_or_empty(),
            final(self)@ == old(self)@.with_service(final(r)@),
    {
        if self.service.is_none() {
            self.service = Some(ecs::Service::new());
        }
        match &mut self.service {
            Some(v) => v,
            None => vstd::pervasive::unreached(),
        }
    }

    /// The `transaction` of the record, created empty on first use.
    pub fn transaction(&mut self) -> (r: &mut ecs::Transaction)
        ensures
            r@ == old(self)@.transaction_or_empty(),
            final(self)@ == old(self)@.with_transaction(final(r)@),
    {
        if self.transaction.is_none() {
            self.transaction = Some(ecs::Transaction::new());
        }
        match &mut self.transaction {
            Some(v) => v,
            None => vstd::pervasive::unreached(),
        }
    }

    /// The typed `event` of the record. Where there is none, or only a plain text,
    /// an empty one takes its place, and the plain text goes to `misc`.
    pub fn event(&mut self) -> (r: &mut ecs::Event)
        ensures
            r@ == old(self)@.event_or_empty(),
            final(self)@ == old(self)@.with_event(final(r)@),
    {
        let text = match &self.event {
            Some(EventOrString::String(s)) => Some(s.clone()),
            _ => None,
        };
        match text {
            Some(text) => {
                self.note("event", text.as_str());
            },
            None => {},
        }
        let typed = match &self.event {
            Some(EventOrString::Event(_)) => true,
            _ => false,
        };
        if !typed {
            self.event = Some(EventOrString::Event(ecs::Event::new()));
        }
        match &mut self.event {
            Some(EventOrString::Event(v)) => v,
            _ => vstd::pervasive::unreached(),
        }
    }

    /// The typed `error` of the record. Where there is none, or only a plain text,
    /// an empty one takes its place, and the plain text goes to `misc`.
    pub fn error(&mut self) -> (r: &mut ecs::Error)
        ensures
            r@ == old(self)@.error_or_empty(),
            final(self)@ == old(self)@.with_error(final(r)@),
    {
        let text = match &self.error {
            Some(ErrorOrString::String(s)) => Some(s.clone()),
            _ => None,
        };
        match text {
            Some(text) => {
                self.note("error", text.as_str());
            },
            None => {},
        }
        let typed = match &self.error {
            Some(ErrorOrString::Error(_)) => true,
            _ => false,
        };
        if !typed {
            self.error = Some(ErrorOrString::Error(ecs::Error::new()));
        }
        match &mut self.error {
            Some(ErrorOrString::Error(v)) => v,
            _ => vstd::pervasive::unreached(),
        }
    }

    /// The typed `log` of the record. Where there is none, or only a plain text,
    /// an empty one takes its place, and the plain text goes to `misc`.
    pub fn log(&mut self) -> (r: &mut ecs::Log)
        ensures
            r@ == old(self)@.log_or_empty(),
            final(self)@ == old(self)@.with_log(final(r)@),
    {
        let text = match &self.log {
            Some(LogOrString::String(s)) => Some(s.clone()),
            _ => None,
        };
        match text {
            Some(text) => {
                self.note("log", text.as_str());
            },
            None => {},
        }
        let typed = match &self.log {
            Some(LogOrString::Log(_)) => true,
            _ => false,
        };
        if !typed {
            self.log = Some(LogOrString::Log(ecs::Log::new()));
        }
        match &mut self.log {
            Some(LogOrString::Log(v)) => v,
            _ => vstd::pervasive::unreached(),
        }
    }

    /// Sets the message. A message that the record had before goes to `misc`.
    pub fn set_message(&mut self, text: String)
        ensures
            final(self)@ == old(self)@.with_message(text@),
    {
        match self.message.take() {
            Some(before) => {
                self.note("message", before.as_str());
            },
            None => {},
        }
        self.message = Some(text);
    }

    /// Adds `label:text` at the end of `misc`.
    pub fn note(&mut self, label: &str, text: &str)
        ensures
            final(self)@ == old(self)@.noting(labelled(label@, text@)),
    {
        let mut entry = String::from_str(label);
        entry.append(":");
        entry.append(text);
        proof {
            reveal_strlit(":");
            assert(":"@ =~= seq![':']);
        }
        self.misc.push(entry);
        assert(self.misc.deep_view() =~= old(self).misc.deep_view().push(entry@));
    }

    /// Takes `key` out of the unclaimed keys and returns what was under it.
    pub fn take_value(&mut self, key: &str) -> (r: Option<Value>)
        ensures
            final(self)@ == old(self)@.without(key@),
            r == lookup(old(self)@.other, key@),
    {
        object_remove(&mut self.other, key)
    }

    /// Takes `key` out of the unclaimed keys and returns its text, where the
    /// value under it was a JSON string. Any other value is kept in `misc`
    /// under `label`.
    pub fn take_string_as(&mut self, key: &str, label: &str) -> (r: Option<String>)
        ensures
            final(self)@ == old(self)@.text_read(key@, label@),
            r.deep_view() == string_at(old(self)@.other, key@),
    {
        match object_remove(&mut self.other, key) {
            Some(v) => match value_as_str(&v) {
                Some(s) => Some(String::from_str(s)),
                None => {
                    let text = val_to_string(&v);
                    self.note(label, text.as_str());
                    None
                },
            },
            None => None,
        }
    }

    /// Takes `key` out of the unclaimed keys and returns its text, where the
    /// value under it was a JSON string. Any other value is kept in `misc`
    /// under the key.
    pub fn take_string(&mut self, key: &str) -> (r: Option<String>)
        ensures
            final(self)@ == old(self)@.text_read(key@, key@),
            r.deep_view() == string_at(old(self)@.other, key@),
    {
        self.take_string_as(key, key)
    }

    /// Moves `key`, where it is among the unclaimed keys, to `misc`: nothing of
    /// it is lost.
    pub fn move_key_to_misc(&mut self, key: &str)
        ensures
            final(self)@ == old(self)@.moved_to_misc(key@),
    {
        match object_remove(&mut self.other, key) {
            Some(val) => {
                let text = val_to_string(&val);
                self.note(key, text.as_str());
            },
            None => {
                assert(object_entries(self.other) =~= object_entries(old(self).other));
            },
        }
    }

    /// Moves each of `keys`, in order, to `misc`.
    pub fn move_keys_to_misc(&mut self, keys: &Vec<&'static str>)
        ensures
            final(self)@ == old(self)@.moved_all(key_texts(keys@)),
    {
        let mut i: usize = 0;
        assert(key_texts(keys@).take(0) =~= Seq::<Seq<char>>::empty());
        while i < keys.len()
            invariant
                i <= keys@.len(),
                self@ == old(self)@.moved_all(key_texts(keys@).take(i as int)),
            decreases keys@.len() - i,
        {
            self.move_key_to_misc(keys[i]);
            proof {
                let now = key_texts(keys@).take(i + 1);
                assert(now.drop_last() =~= key_texts(keys@).take(i as int));
                assert(now.last() == keys@[i as int]@);
            }
            i += 1;
        }
        assert(key_texts(keys@).take(keys@.len() as int) =~= key_texts(keys@));
    }
}

} // verus!
