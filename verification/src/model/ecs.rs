//! The typed sub-objects of a record, one struct for each.
//!
//! Every struct keeps the keys it has no field for in `other`, so that they pass
//! through untouched. Each has a view, in which texts are sequences of characters
//! and an `other` that is JSON `null` reads as `None`.

use crate::json::{json_is_null, null_value};
use crate::time::Timestamp;
use serde_json::Value;
use vstd::prelude::*;

verus! {

/// The keys that a sub-object holds beside its fields: `None` where there are none.
pub open spec fn extras(other: Value) -> Option<Value> {
    if json_is_null(other) {
        None
    } else {
        Some(other)
    }
}

/// The container that wrote the record.
pub struct Container {
    pub id: Option<String>,
    pub name: Option<String>,
    pub image: Option<ContainerImage>,
    pub other: Value,
}

/// The view of [`Container`].
pub struct ContainerView {
    pub id: Option<Seq<char>>,
    pub name: Option<Seq<char>>,
    pub image: Option<ContainerImageView>,
    pub other: Option<Value>,
}

impl DeepView for Container {
    type V = ContainerView;

    open spec fn deep_view(&self) -> ContainerView {
        ContainerView {
            id: self.id.deep_view(),
            name: self.name.deep_view(),
            image: self.image.deep_view(),
            other: extras(self.other),
        }
    }
}

impl View for Container {
    type V = ContainerView;

    open spec fn view(&self) -> ContainerView {
        self.deep_view()
    }
}

impl ContainerView {
    /// The sub-object with nothing set.
    pub open spec fn empty() -> ContainerView {
        ContainerView {
            id: None,
            name: None,
            image: None,
            other: None,
        }
    }

    /// `image` as it is, or empty where there is none yet.
    pub open spec fn image_or_empty(self) -> ContainerImageView {
        match self.image {
            Some(v) => v,
            None => ContainerImageView::empty(),
        }
    }
}

impl Container {
    /// A sub-object with nothing set.
    pub fn new() -> (r: Container)
        ensures
            r@ == ContainerView::empty(),
    {
        let r = Container {
            id: None,
            name: None,
            image: None,
            other: null_value(),
        };
        r
    }

    /// The `image` of this sub-object, created empty on first use.
    pub fn image(&mut self) -> (r: &mut ContainerImage)
        ensures
            r@ == old(self)@.image_or_empty(),
            final(self)@ == (ContainerView { image: Some(final(r)@), ..old(self)@ }),
    {
        if self.image.is_none() {
            self.image = Some(ContainerImage::new());
        }
        match &mut self.image {
            Some(v) => v,
            None => vstd::pervasive::unreached(),
        }
    }
}

/// The image a container runs.
pub struct ContainerImage {
    pub name: Option<String>,
    pub hash: Option<ContainerImageHash>,
    pub other: Value,
}

/// The view of [`ContainerImage`].
pub struct ContainerImageView {
    pub name: Option<Seq<char>>,
    pub hash: Option<ContainerImageHashView>,
    pub other: Option<Value>,
}

impl DeepView for ContainerImage {
    type V = ContainerImageView;

    open spec fn deep_view(&self) -> ContainerImageView {
        ContainerImageView {
            name: self.name.deep_view(),
            hash: self.hash.deep_view(),
            other: extras(self.other),
        }
    }
}

impl View for ContainerImage {
    type V = ContainerImageView;

    open spec fn view(&self) -> ContainerImageView {
        self.deep_view()
    }
}

impl ContainerImageView {
    /// The sub-object with nothing set.
    pub open spec fn empty() -> ContainerImageView {
        ContainerImageView {
            name: None,
            hash: None,
            other: None,
        }
    }

    /// `hash` as it is, or empty where there is none yet.
    pub open spec fn hash_or_empty(self) -> ContainerImageHashView {
        match self.hash {
            Some(v) => v,
            None => ContainerImageHashView::empty(),
        }
    }
}

impl ContainerImage {
    /// A sub-object with nothing set.
    pub fn new() -> (r: ContainerImage)
        ensures
            r@ == ContainerImageView::empty(),
    {
        let r = ContainerImage {
            name: None,
            hash: None,
            other: null_value(),
        };
        r
    }

    /// The `hash` of this sub-object, created empty on first use.
    pub fn hash(&mut self) -> (r: &mut ContainerImageHash)
        ensures
            r@ == old(self)@.hash_or_empty(),
            final(self)@ == (ContainerImageView { hash: Some(final(r)@), ..old(self)@ }),
    {
        if self.hash.is_none() {
            self.hash = Some(ContainerImageHash::new());
        }
        match &mut self.hash {
            Some(v) => v,
            None => vstd::pervasive::unreached(),
        }
    }
}

/// The digests of a container image.
pub struct ContainerImageHash {
    pub all: Vec<String>,
    pub other: Value,
}

/// The view of [`ContainerImageHash`].
pub struct ContainerImageHashView {
    pub all: Seq<Seq<char>>,
    pub other: Option<Value>,
}

impl DeepView for ContainerImageHash {
    type V = ContainerImageHashView;

    open spec fn deep_view(&self) -> ContainerImageHashView {
        ContainerImageHashView {
            all: self.all.deep_view(),
            other: extras(self.other),
        }
    }
}

impl View for ContainerImageHash {
    type V = ContainerImageHashView;

    open spec fn view(&self) -> ContainerImageHashView {
        self.deep_view()
    }
}

impl ContainerImageHashView {
    /// The sub-object with nothing set.
    pub open spec fn empty() -> ContainerImageHashView {
        ContainerImageHashView {
            all: Seq::empty(),
            other: None,
        }
    }
}

impl ContainerImageHash {
    /// A sub-object with nothing set.
    pub fn new() -> (r: ContainerImageHash)
        ensures
            r@ == ContainerImageHashView::empty(),
    {
        let r = ContainerImageHash {
            all: Vec::new(),
            other: null_value(),
        };
        assert(r.all.deep_view() =~= Seq::<Seq<char>>::empty());
        r
    }
}

/// What happened: classification, outcome and timing of the event.
pub struct Event {
    pub dataset: Option<String>,
    pub module: Option<String>,
    pub kind: Option<String>,
    pub category: Vec<String>,
    pub type_val: Vec<String>,
    pub outcome: Option<String>,
    pub action: Option<String>,
    pub created: Option<Timestamp>,
    pub severity: Option<u32>,
    pub original: Option<String>,
    pub end: Option<Timestamp>,
    pub duration: Option<u64>,
    pub sequence: Option<u64>,
    pub other: Value,
}

/// The view of [`Event`].
pub struct EventView {
    pub dataset: Option<Seq<char>>,
    pub module: Option<Seq<char>>,
    pub kind: Option<Seq<char>>,
    pub category: Seq<Seq<char>>,
    pub type_val: Seq<Seq<char>>,
    pub outcome: Option<Seq<char>>,
    pub action: Option<Seq<char>>,
    pub created: Option<Timestamp>,
    pub severity: Option<u32>,
    pub original: Option<Seq<char>>,
    pub end: Option<Timestamp>,
    pub duration: Option<u64>,
    pub sequence: Option<u64>,
    pub other: Option<Value>,
}

impl DeepView for Event {
    type V = EventView;

    open spec fn deep_view(&self) -> EventView {
        EventView {
            dataset: self.dataset.deep_view(),
            module: self.module.deep_view(),
            kind: self.kind.deep_view(),
            category: self.category.deep_view(),
            type_val: self.type_val.deep_view(),
            outcome: self.outcome.deep_view(),
            action: self.action.deep_view(),
            created: self.created,
            severity: self.severity,
            original: self.original.deep_view(),
            end: self.end,
            duration: self.duration,
            sequence: self.sequence,
            other: extras(self.other),
        }
    }
}

impl View for Event {
    type V = EventView;

    open spec fn view(&self) -> EventView {
        self.deep_view()
    }
}

impl EventView {
    /// The sub-object with nothing set.
    pub open spec fn empty() -> EventView {
        EventView {
            dataset: None,
            module: None,
            kind: None,
            category: Seq::empty(),
            type_val: Seq::empty(),
            outcome: None,
            action: None,
            created: None,
            severity: None,
            original: None,
            end: None,
            duration: None,
            sequence: None,
            other: None,
        }
    }
}

impl Event {
    /// A sub-object with nothing set.
    pub fn new() -> (r: Event)
        ensures
            r@ == EventView::empty(),
    {
        let r = Event {
            dataset: None,
            module: None,
            kind: None,
            category: Vec::new(),
            type_val: Vec::new(),
            outcome: None,
            action: None,
            created: None,
            severity: None,
            original: None,
            end: None,
            duration: None,
            sequence: None,
            other: null_value(),
        };
        assert(r.category.deep_view() =~= Seq::<Seq<char>>::empty());
        assert(r.type_val.deep_view() =~= Seq::<Seq<char>>::empty());
        r
    }
}

/// The error that the record reports.
pub struct Error {
    pub message: Option<String>,
    pub other: Value,
}

/// The view of [`Error`].
pub struct ErrorView {
    pub message: Option<Seq<char>>,
    pub other: Option<Value>,
}

impl DeepView for Error {
    type V = ErrorView;

    open spec fn deep_view(&self) -> ErrorView {
        ErrorView {
            message: self.message.deep_view(),
            other: extras(self.other),
        }
    }
}

impl View for Error {
    type V = ErrorView;

    open spec fn view(&self) -> ErrorView {
        self.deep_view()
    }
}

impl ErrorView {
    /// The sub-object with nothing set.
    pub open spec fn empty() -> ErrorView {
        ErrorView {
            message: None,
            other: None,
        }
    }
}

impl Error {
    /// A sub-object with nothing set.
    pub fn new() -> (r: Error)
        ensures
            r@ == ErrorView::empty(),
    {
        let r = Error {
            message: None,
            other: null_value(),
        };
        r
    }
}

/// The machine on which the record was written.
pub struct Host {
    pub hostname: Option<String>,
    pub other: Value,
}

/// The view of [`Host`].
pub struct HostView {
    pub hostname: Option<Seq<char>>,
    pub other: Option<Value>,
}

impl DeepView for Host {
    type V = HostView;

    open spec fn deep_view(&self) -> HostView {
        HostView {
            hostname: self.hostname.deep_view(),
            other: extras(self.other),
        }
    }
}

impl View for Host {
    type V = HostView;

    open spec fn view(&self) -> HostView {
        self.deep_view()
    }
}

impl HostView {
    /// The sub-object with nothing set.
    pub open spec fn empty() -> HostView {
        HostView {
            hostname: None,
            other: None,
        }
    }
}

impl Host {
    /// A sub-object with nothing set.
    pub fn new() -> (r: Host)
        ensures
            r@ == HostView::empty(),
    {
        let r = Host {
            hostname: None,
            other: null_value(),
        };
        r
    }
}

/// How the record was logged: level, logger and place in the source.
pub struct Log {
    pub level: Option<String>,
    pub logger: Option<String>,
    pub origin: Option<LogOrigin>,
    pub other: Value,
}

/// The view of [`Log`].
pub struct LogView {
    pub level: Option<Seq<char>>,
    pub logger: Option<Seq<char>>,
    pub origin: Option<LogOriginView>,
    pub other: Option<Value>,
}

impl DeepView for Log {
    type V = LogView;

    open spec fn deep_view(&self) -> LogView {
        LogView {
            level: self.level.deep_view(),
            logger: self.logger.deep_view(),
            origin: self.origin.deep_view(),
            other: extras(self.other),
        }
    }
}

impl View for Log {
    type V = LogView;

    open spec fn view(&self) -> LogView {
        self.deep_view()
    }
}

impl LogView {
    /// The sub-object with nothing set.
    pub open spec fn empty() -> LogView {
        LogView {
            level: None,
            logger: None,
            origin: None,
            other: None,
        }
    }

    /// `origin` as it is, or empty where there is none yet.
    pub open spec fn origin_or_empty(self) -> LogOriginView {
        match self.origin {
            Some(v) => v,
            None => LogOriginView::empty(),
        }
    }
}

impl Log {
    /// A sub-object with nothing set.
    pub fn new() -> (r: Log)
        ensures
            r@ == LogView::empty(),
    {
        let r = Log {
            level: None,
            logger: None,
            origin: None,
            other: null_value(),
        };
        r
    }

    /// The `origin` of this sub-object, created empty on first use.
    pub fn origin(&mut self) -> (r: &mut LogOrigin)
        ensures
            r@ == old(self)@.origin_or_empty(),
            final(self)@ == (LogView { origin: Some(final(r)@), ..old(self)@ }),
    {
        if self.origin.is_none() {
            self.origin = Some(LogOrigin::new());
        }
        match &mut self.origin {
            Some(v) => v,
            None => vstd::pervasive::unreached(),
        }
    }
}

/// Where in the source a record was logged.
pub struct LogOrigin {
    pub file: Option<LogOriginFile>,
    pub other: Value,
}

/// The view of [`LogOrigin`].
pub struct LogOriginView {
    pub file: Option<LogOriginFileView>,
    pub other: Option<Value>,
}

impl DeepView for LogOrigin {
    type V = LogOriginView;

    open spec fn deep_view(&self) -> LogOriginView {
        LogOriginView {
            file: self.file.deep_view(),
            other: extras(self.other),
        }
    }
}

impl View for LogOrigin {
    type V = LogOriginView;

    open spec fn view(&self) -> LogOriginView {
        self.deep_view()
    }
}

impl LogOriginView {
    /// The sub-object with nothing set.
    pub open spec fn empty() -> LogOriginView {
        LogOriginView {
            file: None,
            other: None,
        }
    }

    /// `file` as it is, or empty where there is none yet.
    pub open spec fn file_or_empty(self) -> LogOriginFileView {
        match self.file {
            Some(v) => v,
            None => LogOriginFileView::empty(),
        }
    }
}

impl LogOrigin {
    /// A sub-object with nothing set.
    pub fn new() -> (r: LogOrigin)
        ensures
            r@ == LogOriginView::empty(),
    {
        let r = LogOrigin {
            file: None,
            other: null_value(),
        };
        r
    }

    /// The `file` of this sub-object, created empty on first use.
    pub fn file(&mut self) -> (r: &mut LogOriginFile)
        ensures
            r@ == old(self)@.file_or_empty(),
            final(self)@ == (LogOriginView { file: Some(final(r)@), ..old(self)@ }),
    {
        if self.file.is_none() {
            self.file = Some(LogOriginFile::new());
        }
        match &mut self.file {
            Some(v) => v,
            None => vstd::pervasive::unreached(),
        }
    }
}

/// The source file and line that logged a record.
pub struct LogOriginFile {
    pub name: Option<String>,
    pub line: Option<u32>,
    pub other: Value,
}

/// The view of [`LogOriginFile`].
pub struct LogOriginFileView {
    pub name: Option<Seq<char>>,
    pub line: Option<u32>,
    pub other: Option<Value>,
}

impl DeepView for LogOriginFile {
    type V = LogOriginFileView;

    open spec fn deep_view(&self) -> LogOriginFileView {
        LogOriginFileView {
            name: self.name.deep_view(),
            line: self.line,
            other: extras(self.other),
        }
    }
}

impl View for LogOriginFile {
    type V = LogOriginFileView;

    open spec fn view(&self) -> LogOriginFileView {
        self.deep_view()
    }
}

impl LogOriginFileView {
    /// The sub-object with nothing set.
    pub open spec fn empty() -> LogOriginFileView {
        LogOriginFileView {
            name: None,
            line: None,
            other: None,
        }
    }
}

impl LogOriginFile {
    /// A sub-object with nothing set.
    pub fn new() -> (r: LogOriginFile)
        ensures
            r@ == LogOriginFileView::empty(),
    {
        let r = LogOriginFile {
            name: None,
            line: None,
            other: null_value(),
        };
        r
    }
}

/// The network protocol the event is about.
pub struct Network {
    pub protocol: Option<String>,
    pub transport: Option<String>,
    pub other: Value,
}

/// The view of [`Network`].
pub struct NetworkView {
    pub protocol: Option<Seq<char>>,
    pub transport: Option<Seq<char>>,
    pub other: Option<Value>,
}

impl DeepView for Network {
    type V = NetworkView;

    open spec fn deep_view(&self) -> NetworkView {
        NetworkView {
            protocol: self.protocol.deep_view(),
            transport: self.transport.deep_view(),
            other: extras(self.other),
        }
    }
}

impl View for Network {
    type V = NetworkView;

    open spec fn view(&self) -> NetworkView {
        self.deep_view()
    }
}

impl NetworkView {
    /// The sub-object with nothing set.
    pub open spec fn empty() -> NetworkView {
        NetworkView {
            protocol: None,
            transport: None,
            other: None,
        }
    }
}

impl Network {
    /// A sub-object with nothing set.
    pub fn new() -> (r: Network)
        ensures
            r@ == NetworkView::empty(),
    {
        let r = Network {
            protocol: None,
            transport: None,
            other: null_value(),
        };
        r
    }
}

/// The orchestrator that runs the workload.
pub struct Orchestrator {
    pub type_val: Option<String>,
    pub namespace: Option<String>,
    pub resource: Option<OrchestratorResource>,
    pub other: Value,
}

/// The view of [`Orchestrator`].
pub struct OrchestratorView {
    pub type_val: Option<Seq<char>>,
    pub namespace: Option<Seq<char>>,
    pub resource: Option<OrchestratorResourceView>,
    pub other: Option<Value>,
}

impl DeepView for Orchestrator {
    type V = OrchestratorView;

    open spec fn deep_view(&self) -> OrchestratorView {
        OrchestratorView {
            type_val: self.type_val.deep_view(),
            namespace: self.namespace.deep_view(),
            resource: self.resource.deep_view(),
            other: extras(self.other),
        }
    }
}

impl View for Orchestrator {
    type V = OrchestratorView;

    open spec fn view(&self) -> OrchestratorView {
        self.deep_view()
    }
}

impl OrchestratorView {
    /// The sub-object with nothing set.
    pub open spec fn empty() -> OrchestratorView {
        OrchestratorView {
            type_val: None,
            namespace: None,
            resource: None,
            other: None,
        }
    }

    /// `resource` as it is, or empty where there is none yet.
    pub open spec fn resource_or_empty(self) -> OrchestratorResourceView {
        match self.resource {
            Some(v) => v,
            None => OrchestratorResourceView::empty(),
        }
    }
}

impl Orchestrator {
    /// A sub-object with nothing set.
    pub fn new() -> (r: Orchestrator)
        ensures
            r@ == OrchestratorView::empty(),
    {
        let r = Orchestrator {
            type_val: None,
            namespace: None,
            resource: None,
            other: null_value(),
        };
        r
    }

    /// The `resource` of this sub-object, created empty on first use.
    pub fn resource(&mut self) -> (r: &mut OrchestratorResource)
        ensures
            r@ == old(self)@.resource_or_empty(),
            final(self)@ == (OrchestratorView { resource: Some(final(r)@), ..old(self)@ }),
    {
        if self.resource.is_none() {
            self.resource = Some(OrchestratorResource::new());
        }
        match &mut self.resource {
            Some(v) => v,
            None => vstd::pervasive::unreached(),
        }
    }
}

/// The orchestrated resource that wrote the record.
pub struct OrchestratorResource {
    pub id: Option<String>,
    pub name: Option<String>,
    pub type_val: Option<String>,
    pub annotations: Vec<String>,
    pub label: Vec<String>,
    pub parent: Option<OrchestratorResourceParent>,
    pub other: Value,
}

/// The view of [`OrchestratorResource`].
pub struct OrchestratorResourceView {
    pub id: Option<Seq<char>>,
    pub name: Option<Seq<char>>,
    pub type_val: Option<Seq<char>>,
    pub annotations: Seq<Seq<char>>,
    pub label: Seq<Seq<char>>,
    pub parent: Option<OrchestratorResourceParentView>,
    pub other: Option<Value>,
}

impl DeepView for OrchestratorResource {
    type V = OrchestratorResourceView;

    open spec fn deep_view(&self) -> OrchestratorResourceView {
        OrchestratorResourceView {
            id: self.id.deep_view(),
            name: self.name.deep_view(),
            type_val: self.type_val.deep_view(),
            annotations: self.annotations.deep_view(),
            label: self.label.deep_view(),
            parent: self.parent.deep_view(),
            other: extras(self.other),
        }
    }
}

impl View for OrchestratorResource {
    type V = OrchestratorResourceView;

    open spec fn view(&self) -> OrchestratorResourceView {
        self.deep_view()
    }
}

impl OrchestratorResourceView {
    /// The sub-object with nothing set.
    pub open spec fn empty() -> OrchestratorResourceView {
        OrchestratorResourceView {
            id: None,
            name: None,
            type_val: None,
            annotations: Seq::empty(),
            label: Seq::empty(),
            parent: None,
            other: None,
        }
    }

    /// `parent` as it is, or empty where there is none yet.
    pub open spec fn parent_or_empty(self) -> OrchestratorResourceParentView {
        match self.parent {
            Some(v) => v,
            None => OrchestratorResourceParentView::empty(),
        }
    }
}

impl OrchestratorResource {
    /// A sub-object with nothing set.
    pub fn new() -> (r: OrchestratorResource)
        ensures
            r@ == OrchestratorResourceView::empty(),
    {
        let r = OrchestratorResource {
            id: None,
            name: None,
            type_val: None,
            annotations: Vec::new(),
            label: Vec::new(),
            parent: None,
            other: null_value(),
        };
        assert(r.annotations.deep_view() =~= Seq::<Seq<char>>::empty());
        assert(r.label.deep_view() =~= Seq::<Seq<char>>::empty());
        r
    }

    /// The `parent` of this sub-object, created empty on first use.
    pub fn parent(&mut self) -> (r: &mut OrchestratorResourceParent)
        ensures
            r@ == old(self)@.parent_or_empty(),
            final(self)@ == (OrchestratorResourceView { parent: Some(final(r)@), ..old(self)@ }),
    {
        if self.parent.is_none() {
            self.parent = Some(OrchestratorResourceParent::new());
        }
        match &mut self.parent {
            Some(v) => v,
            None => vstd::pervasive::unreached(),
        }
    }
}

/// The resource that owns an orchestrated resource.
pub struct OrchestratorResourceParent {
    pub type_val: Option<String>,
    pub other: Value,
}

/// The view of [`OrchestratorResourceParent`].
pub struct OrchestratorResourceParentView {
    pub type_val: Option<Seq<char>>,
    pub other: Option<Value>,
}

impl DeepView for OrchestratorResourceParent {
    type V = OrchestratorResourceParentView;

    open spec fn deep_view(&self) -> OrchestratorResourceParentView {
        OrchestratorResourceParentView {
            type_val: self.type_val.deep_view(),
            other: extras(self.other),
        }
    }
}

impl View for OrchestratorResourceParent {
    type V = OrchestratorResourceParentView;

    open spec fn view(&self) -> OrchestratorResourceParentView {
        self.deep_view()
    }
}

impl OrchestratorResourceParentView {
    /// The sub-object with nothing set.
    pub open spec fn empty() -> OrchestratorResourceParentView {
        OrchestratorResourceParentView {
            type_val: None,
            other: None,
        }
    }
}

impl OrchestratorResourceParent {
    /// A sub-object with nothing set.
    pub fn new() -> (r: OrchestratorResourceParent)
        ensures
            r@ == OrchestratorResourceParentView::empty(),
    {
        let r = OrchestratorResourceParent {
            type_val: None,
            other: null_value(),
        };
        r
    }
}

/// The process that wrote the record.
pub struct Process {
    pub name: Option<String>,
    pub pid: Option<u32>,
    pub thread: Option<ProcessThread>,
    pub other: Value,
}

/// The view of [`Process`].
pub struct ProcessView {
    pub name: Option<Seq<char>>,
    pub pid: Option<u32>,
    pub thread: Option<ProcessThreadView>,
    pub other: Option<Value>,
}

impl DeepView for Process {
    type V = ProcessView;

    open spec fn deep_view(&self) -> ProcessView {
        ProcessView {
            name: self.name.deep_view(),
            pid: self.pid,
            thread: self.thread.deep_view(),
            other: extras(self.other),
        }
    }
}

impl View for Process {
    type V = ProcessView;

    open spec fn view(&self) -> ProcessView {
        self.deep_view()
    }
}

impl ProcessView {
    /// The sub-object with nothing set.
    pub open spec fn empty() -> ProcessView {
        ProcessView {
            name: None,
            pid: None,
            thread: None,
            other: None,
        }
    }

    /// `thread` as it is, or empty where there is none yet.
    pub open spec fn thread_or_empty(self) -> ProcessThreadView {
        match self.thread {
            Some(v) => v,
            None => ProcessThreadView::empty(),
        }
    }
}

impl Process {
    /// A sub-object with nothing set.
    pub fn new() -> (r: Process)
        ensures
            r@ == ProcessView::empty(),
    {
        let r = Process {
            name: None,
            pid: None,
            thread: None,
            other: null_value(),
        };
        r
    }

    /// The `thread` of this sub-object, created empty on first use.
    pub fn thread(&mut self) -> (r: &mut ProcessThread)
        ensures
            r@ == old(self)@.thread_or_empty(),
            final(self)@ == (ProcessView { thread: Some(final(r)@), ..old(self)@ }),
    {
        if self.thread.is_none() {
            self.thread = Some(ProcessThread::new());
        }
        match &mut self.thread {
            Some(v) => v,
            None => vstd::pervasive::unreached(),
        }
    }
}

/// The thread that wrote the record.
pub struct ProcessThread {
    pub name: Option<String>,
    pub id: Option<u32>,
    pub other: Value,
}

/// The view of [`ProcessThread`].
pub struct ProcessThreadView {
    pub name: Option<Seq<char>>,
    pub id: Option<u32>,
    pub other: Option<Value>,
}

impl DeepView for ProcessThread {
    type V = ProcessThreadView;

    open spec fn deep_view(&self) -> ProcessThreadView {
        ProcessThreadView {
            name: self.name.deep_view(),
            id: self.id,
            other: extras(self.other),
        }
    }
}

impl View for ProcessThread {
    type V = ProcessThreadView;

    open spec fn view(&self) -> ProcessThreadView {
        self.deep_view()
    }
}

impl ProcessThreadView {
    /// The sub-object with nothing set.
    pub open spec fn empty() -> ProcessThreadView {
        ProcessThreadView {
            name: None,
            id: None,
            other: None,
        }
    }
}

impl ProcessThread {
    /// A sub-object with nothing set.
    pub fn new() -> (r: ProcessThread)
        ensures
            r@ == ProcessThreadView::empty(),
    {
        let r = ProcessThread {
            name: None,
            id: None,
            other: null_value(),
        };
        r
    }
}

/// The service that the record belongs to.
pub struct Service {
    pub type_val: Option<String>,
    pub name: Option<String>,
    pub environment: Option<String>,
    pub version: Option<String>,
    pub other: Value,
}

/// The view of [`Service`].
pub struct ServiceView {
    pub type_val: Option<Seq<char>>,
    pub name: Option<Seq<char>>,
    pub environment: Option<Seq<char>>,
    pub version: Option<Seq<char>>,
    pub other: Option<Value>,
}

impl DeepView for Service {
    type V = ServiceView;

    open spec fn deep_view(&self) -> ServiceView {
        ServiceView {
            type_val: self.type_val.deep_view(),
            name: self.name.deep_view(),
            environment: self.environment.deep_view(),
            version: self.version.deep_view(),
            other: extras(self.other),
        }
    }
}

impl View for Service {
    type V = ServiceView;

    open spec fn view(&self) -> ServiceView {
        self.deep_view()
    }
}

impl ServiceView {
    /// The sub-object with nothing set.
    pub open spec fn empty() -> ServiceView {
        ServiceView {
            type_val: None,
            name: None,
            environment: None,
            version: None,
            other: None,
        }
    }
}

impl Service {
    /// A sub-object with nothing set.
    pub fn new() -> (r: Service)
        ensures
            r@ == ServiceView::empty(),
    {
        let r = Service {
            type_val: None,
            name: None,
            environment: None,
            version: None,
            other: null_value(),
        };
        r
    }
}

/// The peer from which a connection or request came.
pub struct Source {
    pub ip: Option<String>,
    pub domain: Option<String>,
    pub other: Value,
}

/// The view of [`Source`].
pub struct SourceView {
    pub ip: Option<Seq<char>>,
    pub domain: Option<Seq<char>>,
    pub other: Option<Value>,
}

impl DeepView for Source {
    type V = SourceView;

    open spec fn deep_view(&self) -> SourceView {
        SourceView {
            ip: self.ip.deep_view(),
            domain: self.domain.deep_view(),
            other: extras(self.other),
        }
    }
}

impl View for Source {
    type V = SourceView;

    open spec fn view(&self) -> SourceView {
        self.deep_view()
    }
}

impl SourceView {
    /// The sub-object with nothing set.
    pub open spec fn empty() -> SourceView {
        SourceView {
            ip: None,
            domain: None,
            other: None,
        }
    }
}

impl Source {
    /// A sub-object with nothing set.
    pub fn new() -> (r: Source)
        ensures
            r@ == SourceView::empty(),
    {
        let r = Source {
            ip: None,
            domain: None,
            other: null_value(),
        };
        r
    }
}

/// The transaction that the event is part of.
pub struct Transaction {
    pub id: Option<String>,
    pub other: Value,
}

/// The view of [`Transaction`].
pub struct TransactionView {
    pub id: Option<Seq<char>>,
    pub other: Option<Value>,
}

impl DeepView for Transaction {
    type V = TransactionView;

    open spec fn deep_view(&self) -> TransactionView {
        TransactionView {
            id: self.id.deep_view(),
            other: extras(self.other),
        }
    }
}

impl View for Transaction {
    type V = TransactionView;

    open spec fn view(&self) -> TransactionView {
        self.deep_view()
    }
}

impl TransactionView {
    /// The sub-object with nothing set.
    pub open spec fn empty() -> TransactionView {
        TransactionView {
            id: None,
            other: None,
        }
    }
}

impl Transaction {
    /// A sub-object with nothing set.
    pub fn new() -> (r: Transaction)
        ensures
            r@ == TransactionView::empty(),
    {
        let r = Transaction {
            id: None,
            other: null_value(),
        };
        r
    }
}

/// The user that the event is about.
pub struct User {
    pub name: Option<String>,
    pub id: Option<String>,
    pub other: Value,
}

/// The view of [`User`].
pub struct UserView {
    pub name: Option<Seq<char>>,
    pub id: Option<Seq<char>>,
    pub other: Option<Value>,
}

impl DeepView for User {
    type V = UserView;

    open spec fn deep_view(&self) -> UserView {
        UserView {
            name: self.name.deep_view(),
            id: self.id.deep_view(),
            other: extras(self.other),
        }
    }
}

impl View for User {
    type V = UserView;

    open spec fn view(&self) -> UserView {
        self.deep_view()
    }
}

impl UserView {
    /// The sub-object with nothing set.
    pub open spec fn empty() -> UserView {
        UserView {
            name: None,
            id: None,
            other: None,
        }
    }
}

impl User {
    /// A sub-object with nothing set.
    pub fn new() -> (r: User)
        ensures
            r@ == UserView::empty(),
    {
        let r = User {
            name: None,
            id: None,
            other: null_value(),
        };
        r
    }
}

} // verus!
