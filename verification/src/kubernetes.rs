//! The normalizer for the Kubernetes metadata that the collector attaches.

use crate::json::{
    json_string, json_text, lookup, object_entries, object_get, object_into_entries, object_keys,
    string_at, value_as_str, value_to_text, JsonObject,
};
use crate::model::ecs::{
    ContainerImageHashView, ContainerImageView, ContainerView, HostView,
    OrchestratorResourceParentView, OrchestratorResourceView, OrchestratorView, ServiceView,
};
use crate::model::fluentbit::{Kubernetes, KubernetesView};
use crate::model::{FluentBitJson, FluentBitJsonView};
use crate::text::{
    chars_of, find_last, has_prefix_at, is_prefix_at, labelled, last_index_of, one_text, substring,
};
use serde_json::Value;
use vstd::prelude::*;
use vstd::string::StringExecFns;

verus! {

/// The digest of an image reference `...@digest`: what follows the last `@`.
/// A reference without `@` names no digest.
pub open spec fn container_hash_of(hash: Seq<char>) -> Option<Seq<char>> {
    match last_index_of(hash, '@') {
        Some(i) => Some(hash.skip(i + 1)),
        None => None,
    }
}

/// The digest of an image reference, if it names one.
pub fn extract_container_hash(hash: String) -> (r: Option<String>)
    ensures
        r.deep_view() == container_hash_of(hash@),
{
    let chars = chars_of(hash.as_str());
    match find_last(chars.as_slice(), '@') {
        Some(i) => {
            proof {
                crate::text::lemma_last_index_of(chars@, '@');
            }
            assert(chars@.subrange(i + 1, chars@.len() as int) == chars@.skip(i + 1));
            Some(substring(chars.as_slice(), i + 1, chars.len()))
        },
        None => None,
    }
}

/// Whether a flattened label carries the key by which a StatefulSet names its
/// pods.
pub open spec fn names_stateful_pod(label: Seq<char>) -> bool {
    is_prefix_at(label, 0, "statefulset.kubernetes.io/pod-name"@)
}

/// The kind of resource that owns the pod, as far as the labels tell: a
/// StatefulSet where one of them names the pod.
pub open spec fn resource_parent_of(labels: Seq<Seq<char>>) -> Option<Seq<char>> {
    if exists|i: int| 0 <= i < labels.len() && names_stateful_pod(#[trigger] labels[i]) {
        Some("StatefulSet"@)
    } else {
        None
    }
}

/// The kind of resource that owns the pod, as far as the flattened labels tell.
pub fn detect_resource_parent(label: &Vec<String>) -> (r: Option<String>)
    ensures
        r.deep_view() == resource_parent_of(label.deep_view()),
{
    let prefix = chars_of("statefulset.kubernetes.io/pod-name");
    let mut i: usize = 0;
    while i < label.len()
        invariant
            i <= label@.len(),
            prefix@ == "statefulset.kubernetes.io/pod-name"@,
            forall|j: int| 0 <= j < i ==> !names_stateful_pod(#[trigger] label.deep_view()[j]),
        decreases label@.len() - i,
    {
        let candidate = chars_of(label[i].as_str());
        if has_prefix_at(candidate.as_slice(), 0, prefix.as_slice()) {
            assert(names_stateful_pod(label.deep_view()[i as int]));
            return Some(String::from_str("StatefulSet"));
        }
        i += 1;
    }
    None
}

/// A value as it is written in a flattened list: a JSON string as its bare text,
/// anything else as JSON text.
pub open spec fn flat_text(v: Value) -> Seq<char> {
    match json_string(v) {
        Some(s) => s,
        None => json_text(v),
    }
}

/// The entries of an object as `key:value` texts, in the order in which the
/// object hands out its keys.
pub open spec fn flattened(m: JsonObject) -> Seq<Seq<char>> {
    Seq::new(
        object_keys(m).len(),
        |i: int| labelled(object_keys(m)[i], flat_text(object_entries(m)[object_keys(m)[i]])),
    )
}

/// Whether `list` holds every entry of `m` as a `key:value` text.
pub open spec fn holds_all(list: Seq<Seq<char>>, m: JsonObject) -> bool {
    forall|k: Seq<char>| #[trigger]
        object_entries(m).contains_key(k) ==> list.contains(
            labelled(k, flat_text(object_entries(m)[k])),
        )
}

fn to_vec(map: JsonObject) -> (r: Vec<String>)
    ensures
        r.deep_view() == flattened(map),
        holds_all(flattened(map), map),
        object_keys(map).no_duplicates(),
{
    let entries = object_into_entries(map);
    let mut out: Vec<String> = Vec::new();
    let mut i: usize = 0;
    assert(object_keys(map).no_duplicates()) by {
        assert forall|a: int, b: int|
            0 <= a < object_keys(map).len() && 0 <= b < object_keys(map).len() && a != b implies object_keys(
            map,
        )[a] != object_keys(map)[b] by {
            if a < b {
                assert(entries@[a].0@ != entries@[b].0@);
            } else {
                assert(entries@[b].0@ != entries@[a].0@);
            }
        }
    }
    while i < entries.len()
        invariant
            i <= entries@.len(),
            object_keys(map).no_duplicates(),
            entries@.len() == object_keys(map).len(),
            forall|j: int|
                0 <= j < entries@.len() ==> (#[trigger] entries@[j]).0@ == object_keys(map)[j]
                    && lookup(object_entries(map), object_keys(map)[j]) == Some(entries@[j].1),
            out@.len() == i,
            forall|j: int| 0 <= j < i ==> (#[trigger] out@[j])@ == flattened(map)[j],
        decreases entries@.len() - i,
    {
        let entry = &entries[i];
        let mut text = String::from_str(entry.0.as_str());
        text.append(":");
        match value_as_str(&entry.1) {
            Some(s) => {
                text.append(s);
            },
            None => {
                let t = value_to_text(&entry.1);
                text.append(t.as_str());
            },
        }
        proof {
            reveal_strlit(":");
            assert(":"@ =~= seq![':']);
        }
        out.push(text);
        i += 1;
    }
    assert(out.deep_view() =~= flattened(map));
    assert forall|k: Seq<char>| #[trigger] object_entries(map).contains_key(k) implies flattened(
        map,
    ).contains(labelled(k, flat_text(object_entries(map)[k]))) by {
        let i = choose|i: int| 0 <= i < entries@.len() && (#[trigger] entries@[i]).0@ == k;
        assert(flattened(map)[i] == labelled(k, flat_text(object_entries(map)[k])));
    }
    out
}

/// The service that the labels name.
pub open spec fn service_of(s: ServiceView, labels: JsonObject) -> ServiceView {
    let s = match string_at(object_entries(labels), "app.kubernetes.io/instance"@) {
        Some(environment) => ServiceView { environment: Some(environment), ..s },
        None => s,
    };
    let s = match string_at(object_entries(labels), "app.kubernetes.io/name"@) {
        Some(name) => ServiceView { name: Some(name), ..s },
        None => s,
    };
    match string_at(object_entries(labels), "app.kubernetes.io/version"@) {
        Some(version) => ServiceView { version: Some(version), ..s },
        None => s,
    }
}

/// Whether the labels name any part of the service.
pub open spec fn names_service(labels: JsonObject) -> bool {
    string_at(object_entries(labels), "app.kubernetes.io/instance"@) is Some || string_at(
        object_entries(labels),
        "app.kubernetes.io/name"@,
    ) is Some || string_at(object_entries(labels), "app.kubernetes.io/version"@) is Some
}

/// The pod as an orchestrated resource, with labels and annotations flattened.
pub open spec fn resource_of(
    r: OrchestratorResourceView,
    k: KubernetesView,
) -> OrchestratorResourceView {
    let label = flattened(k.labels);
    let r = OrchestratorResourceView {
        id: k.pod_id,
        name: k.pod_name,
        type_val: Some("Pod"@),
        annotations: flattened(k.annotations),
        label,
        ..r
    };
    match resource_parent_of(label) {
        Some(parent) => OrchestratorResourceView {
            parent: Some(
                OrchestratorResourceParentView { type_val: Some(parent), ..r.parent_or_empty() },
            ),
            ..r
        },
        None => r,
    }
}

/// The container that the metadata names.
pub open spec fn container_of(c: ContainerView, k: KubernetesView) -> ContainerView {
    let c = match k.docker_id {
        Some(id) => ContainerView { id: Some(id), ..c },
        None => c,
    };
    let c = match k.container_name {
        Some(name) => ContainerView { name: Some(name), ..c },
        None => c,
    };
    let c = match k.container_image {
        Some(image) => ContainerView {
            image: Some(ContainerImageView { name: Some(image), ..c.image_or_empty() }),
            ..c
        },
        None => c,
    };
    match digest_of(k) {
        Some(hash) => {
            let image = c.image_or_empty();
            ContainerView {
                image: Some(
                    ContainerImageView {
                        hash: Some(ContainerImageHashView { all: seq![hash], ..image.hash_or_empty() }),
                        ..image
                    },
                ),
                ..c
            }
        },
        None => c,
    }
}

/// The digest of the container's image, where the metadata names one.
pub open spec fn digest_of(k: KubernetesView) -> Option<Seq<char>> {
    match k.container_hash {
        Some(hash) => container_hash_of(hash),
        None => None,
    }
}

/// Whether the metadata names any part of the container.
pub open spec fn names_container(k: KubernetesView) -> bool {
    k.docker_id is Some || k.container_name is Some || k.container_image is Some || digest_of(
        k,
    ) is Some
}

/// The record after the metadata `k` has been written to it.
pub open spec fn with_kubernetes(d: FluentBitJsonView, k: KubernetesView) -> FluentBitJsonView {
    let d = match k.host {
        Some(host) => d.with_host(HostView { hostname: Some(host), ..d.host_or_empty() }),
        None => d,
    };
    let d = if names_service(k.labels) {
        d.with_service(service_of(d.service_or_empty(), k.labels))
    } else {
        d
    };
    let o = d.orchestrator_or_empty();
    let d = d.with_orchestrator(
        OrchestratorView {
            type_val: Some("kubernetes"@),
            namespace: k.namespace_name,
            resource: Some(resource_of(o.resource_or_empty(), k)),
            ..o
        },
    );
    if names_container(k) {
        d.with_container(container_of(d.container_or_empty(), k))
    } else {
        d
    }
}

/// What the normalizer makes of a record: the metadata, where there is any, is
/// written to host, service, orchestrator and container, and is gone afterwards.
pub open spec fn normalized(d: FluentBitJsonView) -> FluentBitJsonView {
    match d.kubernetes {
        Some(k) => with_kubernetes(FluentBitJsonView { kubernetes: None, ..d }, k),
        None => d,
    }
}

fn label_text(labels: &JsonObject, key: &str) -> (r: Option<String>)
    ensures
        r.deep_view() == string_at(object_entries(*labels), key@),
{
    match object_get(labels, key) {
        Some(v) => match value_as_str(v) {
            Some(s) => Some(String::from_str(s)),
            None => None,
        },
        None => None,
    }
}

fn convert_service(json: &mut FluentBitJson, labels: &JsonObject)
    ensures
        final(json)@ == (if names_service(*labels) {
            old(json)@.with_service(service_of(old(json)@.service_or_empty(), *labels))
        } else {
            old(json)@
        }),
{
    match label_text(labels, "app.kubernetes.io/instance") {
        Some(environment) => {
            json.service().environment = Some(environment);
        },
        None => {},
    }
    match label_text(labels, "app.kubernetes.io/name") {
        Some(name) => {
            json.service().name = Some(name);
        },
        None => {},
    }
    match label_text(labels, "app.kubernetes.io/version") {
        Some(version) => {
            json.service().version = Some(version);
        },
        None => {},
    }
}

fn convert(kubernetes: Kubernetes, json: &mut FluentBitJson)
    ensures
        final(json)@ == with_kubernetes(old(json)@, kubernetes@),
        holds_all(flattened(kubernetes@.labels), kubernetes@.labels),
        holds_all(flattened(kubernetes@.annotations), kubernetes@.annotations),
        object_keys(kubernetes@.labels).no_duplicates(),
        object_keys(kubernetes@.annotations).no_duplicates(),
{
    let ghost k = kubernetes@;
    let Kubernetes {
        container_image,
        container_hash,
        container_name,
        docker_id,
        host,
        namespace_name,
        pod_id,
        pod_name,
        annotations,
        labels,
        other: _,
    } = kubernetes;

    match host {
        Some(host) => {
            json.host().hostname = Some(host);
        },
        None => {},
    }

    convert_service(json, &labels);

    {
        let orchestrator = json.orchestrator();
        orchestrator.type_val = Some(String::from_str("kubernetes"));
        orchestrator.namespace = namespace_name;

        let resource = orchestrator.resource();
        resource.id = pod_id;
        resource.name = pod_name;
        resource.type_val = Some(String::from_str("Pod"));
        resource.annotations = to_vec(annotations);
        resource.label = to_vec(labels);

        match detect_resource_parent(&resource.label) {
            Some(parent_type) => {
                resource.parent().type_val = Some(parent_type);
            },
            None => {},
        }
    }

    match docker_id {
        Some(docker_id) => {
            json.container().id = Some(docker_id);
        },
        None => {},
    }
    match container_name {
        Some(container_name) => {
            json.container().name = Some(container_name);
        },
        None => {},
    }
    match container_image {
        Some(container_image) => {
            json.container().image().name = Some(container_image);
        },
        None => {},
    }
    let hash = match container_hash {
        Some(hash) => extract_container_hash(hash),
        None => None,
    };
    match hash {
        Some(hash) => {
            json.container().image().hash().all = one_text(hash.as_str());
        },
        None => {},
    }
}

/// Writes the record's Kubernetes metadata to the fields of the schema. The
/// metadata is consumed: afterwards the record holds none. No label and no
/// annotation is lost on the way: each is among the flattened texts, which hold
/// one entry for each key and no key twice.
pub fn convert_kubernetes_metadata(json: &mut FluentBitJson)
    ensures
        final(json)@ == normalized(old(json)@),
        final(json)@.kubernetes is None,
        old(json)@.kubernetes matches Some(k) ==> {
            let resource = final(json)@.orchestrator_or_empty().resource_or_empty();
            &&& holds_all(resource.label, k.labels)
            &&& holds_all(resource.annotations, k.annotations)
            &&& resource.label.len() == object_keys(k.labels).len()
            &&& resource.annotations.len() == object_keys(k.annotations).len()
            &&& object_keys(k.labels).no_duplicates()
            &&& object_keys(k.annotations).no_duplicates()
        },
{
    match json.kubernetes.take() {
        Some(kubernetes) => {
            convert(kubernetes, json);
        },
        None => {},
    }
}

} // verus!
