//! What the log collector attaches to a record.

use crate::json::{null_value, object_new, JsonObject};
use crate::model::ecs::extras;
use serde_json::Value;
use vstd::prelude::*;

verus! {

/// The Kubernetes metadata of the pod and container that wrote a record.
pub struct Kubernetes {
    pub container_image: Option<String>,
    pub container_hash: Option<String>,
    pub container_name: Option<String>,
    pub docker_id: Option<String>,
    pub host: Option<String>,
    pub namespace_name: Option<String>,
    pub pod_id: Option<String>,
    pub pod_name: Option<String>,
    pub annotations: JsonObject,
    pub labels: JsonObject,
    pub other: Value,
}

/// The view of [`Kubernetes`]. Labels and annotations are kept as they are.
pub struct KubernetesView {
    pub container_image: Option<Seq<char>>,
    pub container_hash: Option<Seq<char>>,
    pub container_name: Option<Seq<char>>,
    pub docker_id: Option<Seq<char>>,
    pub host: Option<Seq<char>>,
    pub namespace_name: Option<Seq<char>>,
    pub pod_id: Option<Seq<char>>,
    pub pod_name: Option<Seq<char>>,
    pub annotations: JsonObject,
    pub labels: JsonObject,
    pub other: Option<Value>,
}

impl DeepView for Kubernetes {
    type V = KubernetesView;

    open spec fn deep_view(&self) -> KubernetesView {
        KubernetesView {
            container_image: self.container_image.deep_view(),
            container_hash: self.container_hash.deep_view(),
            container_name: self.container_name.deep_view(),
            docker_id: self.docker_id.deep_view(),
            host: self.host.deep_view(),
            namespace_name: self.namespace_name.deep_view(),
            pod_id: self.pod_id.deep_view(),
            pod_name: self.pod_name.deep_view(),
            annotations: self.annotations,
            labels: self.labels,
            other: extras(self.other),
        }
    }
}

impl View for Kubernetes {
    type V = KubernetesView;

    open spec fn view(&self) -> KubernetesView {
        self.deep_view()
    }
}

impl Kubernetes {
    /// Metadata that names nothing and carries no labels or annotations.
    pub fn new() -> (r: Kubernetes)
        ensures
            r@.container_image is None,
            r@.container_hash is None,
            r@.container_name is None,
            r@.docker_id is None,
            r@.host is None,
            r@.namespace_name is None,
            r@.pod_id is None,
            r@.pod_name is None,
            crate::json::object_entries(r@.annotations) == crate::json::no_entries(),
            crate::json::object_entries(r@.labels) == crate::json::no_entries(),
            r@.other is None,
    {
        Kubernetes {
            container_image: None,
            container_hash: None,
            container_name: None,
            docker_id: None,
            host: None,
            namespace_name: None,
            pod_id: None,
            pod_name: None,
            annotations: object_new(),
            labels: object_new(),
            other: null_value(),
        }
    }
}

} // verus!
