use fluent_ecs::kubernetes::{
    convert_kubernetes_metadata, detect_resource_parent, extract_container_hash,
};
use fluent_ecs::model::fluentbit::Kubernetes;
use fluent_ecs::model::FluentBitJson;
use serde_json::Value;

fn texts(items: &[&str]) -> Vec<String> {
    items.iter().map(|s| s.to_string()).collect()
}

fn metadata() -> Kubernetes {
    let mut k = Kubernetes::new();
    k.host = Some("node-1".to_string());
    k.namespace_name = Some("mail".to_string());
    k.pod_id = Some("8d3f".to_string());
    k.pod_name = Some("postfix-0".to_string());
    k.docker_id = Some("c0ffee".to_string());
    k.container_name = Some("postfix".to_string());
    k.container_image = Some("registry.example/postfix:3.5".to_string());
    k.container_hash = Some("registry.example/postfix@sha256:abcd".to_string());
    k.labels = serde_json::from_str(
        r#"{"app.kubernetes.io/name": "postfix", "app.kubernetes.io/instance": "prod",
            "app.kubernetes.io/version": "3.5", "statefulset.kubernetes.io/pod-name": "postfix-0"}"#,
    )
    .unwrap();
    k.annotations = serde_json::from_str(r#"{"checksum/config": "1f", "replicas": 2}"#).unwrap();
    k
}

#[test]
fn new_metadata_names_nothing() {
    let k = Kubernetes::new();
    assert!(k.host.is_none());
    assert!(k.pod_name.is_none());
    assert!(k.labels.is_empty());
    assert!(k.annotations.is_empty());
    assert!(k.other.is_null());
}

#[test]
fn container_hash_is_what_follows_the_last_at() {
    assert_eq!(
        extract_container_hash("docker.io/library/nginx@sha256:abc".to_string()),
        Some("sha256:abc".to_string())
    );
    assert_eq!(extract_container_hash("a@b@c".to_string()), Some("c".to_string()));
    assert_eq!(extract_container_hash("nginx@".to_string()), Some("".to_string()));
    assert_eq!(extract_container_hash("@".to_string()), Some("".to_string()));
    assert_eq!(extract_container_hash("nginx:latest".to_string()), None);
    assert_eq!(extract_container_hash("".to_string()), None);
}

#[test]
fn stateful_set_is_detected_by_its_pod_name_label() {
    assert_eq!(
        detect_resource_parent(&texts(&["app:web", "statefulset.kubernetes.io/pod-name:web-0"])),
        Some("StatefulSet".to_string())
    );
    assert_eq!(
        detect_resource_parent(&texts(&["statefulset.kubernetes.io/pod-name:web-0", "app:web"])),
        Some("StatefulSet".to_string())
    );
    assert_eq!(detect_resource_parent(&texts(&["app:web", "pod-template-hash:5d"])), None);
    assert_eq!(detect_resource_parent(&texts(&["x-statefulset.kubernetes.io/pod-name:web-0"])), None);
    assert_eq!(detect_resource_parent(&texts(&["statefulset.kubernetes.io/pod"])), None);
    assert_eq!(detect_resource_parent(&texts(&[])), None);
}

#[test]
fn metadata_is_written_to_the_schema() {
    let mut json = FluentBitJson::new();
    json.kubernetes = Some(metadata());
    json.other.insert("stays".to_string(), Value::Bool(true));
    convert_kubernetes_metadata(&mut json);
    assert!(json.kubernetes.is_none());
    assert_eq!(json.host().hostname.as_deref(), Some("node-1"));
    let service = json.service();
    assert_eq!(service.environment.as_deref(), Some("prod"));
    assert_eq!(service.name.as_deref(), Some("postfix"));
    assert_eq!(service.version.as_deref(), Some("3.5"));
    assert_eq!(service.type_val, None);
    let orchestrator = json.orchestrator();
    assert_eq!(orchestrator.type_val.as_deref(), Some("kubernetes"));
    assert_eq!(orchestrator.namespace.as_deref(), Some("mail"));
    let resource = orchestrator.resource();
    assert_eq!(resource.id.as_deref(), Some("8d3f"));
    assert_eq!(resource.name.as_deref(), Some("postfix-0"));
    assert_eq!(resource.type_val.as_deref(), Some("Pod"));
    let mut label = resource.label.clone();
    label.sort();
    assert_eq!(
        label,
        texts(&[
            "app.kubernetes.io/instance:prod",
            "app.kubernetes.io/name:postfix",
            "app.kubernetes.io/version:3.5",
            "statefulset.kubernetes.io/pod-name:postfix-0",
        ])
    );
    let mut annotations = resource.annotations.clone();
    annotations.sort();
    assert_eq!(annotations, texts(&["checksum/config:1f", "replicas:2"]));
    assert_eq!(resource.parent().type_val.as_deref(), Some("StatefulSet"));
    let container = json.container();
    assert_eq!(container.id.as_deref(), Some("c0ffee"));
    assert_eq!(container.name.as_deref(), Some("postfix"));
    assert_eq!(container.image().name.as_deref(), Some("registry.example/postfix:3.5"));
    assert_eq!(container.image().hash().all, texts(&["sha256:abcd"]));
    assert_eq!(json.other.len(), 1);
    assert!(json.misc.is_empty());
}

#[test]
fn metadata_is_consumed_only_once() {
    let mut json = FluentBitJson::new();
    json.kubernetes = Some(metadata());
    convert_kubernetes_metadata(&mut json);
    json.host().hostname = Some("changed".to_string());
    json.orchestrator().namespace = Some("changed".to_string());
    convert_kubernetes_metadata(&mut json);
    assert!(json.kubernetes.is_none());
    assert_eq!(json.host().hostname.as_deref(), Some("changed"));
    assert_eq!(json.orchestrator().namespace.as_deref(), Some("changed"));
}

#[test]
fn record_without_metadata_is_left_alone() {
    let mut json = FluentBitJson::new();
    convert_kubernetes_metadata(&mut json);
    assert!(json.kubernetes.is_none());
    assert!(json.orchestrator.is_none());
    assert!(json.host.is_none());
    assert!(json.container.is_none());
    assert!(json.service.is_none());
}

#[test]
fn empty_metadata_still_names_the_orchestrator() {
    let mut json = FluentBitJson::new();
    json.orchestrator().namespace = Some("old".to_string());
    json.orchestrator().resource().name = Some("old".to_string());
    json.kubernetes = Some(Kubernetes::new());
    convert_kubernetes_metadata(&mut json);
    assert_eq!(json.orchestrator().type_val.as_deref(), Some("kubernetes"));
    assert_eq!(json.orchestrator().namespace, None);
    let resource = json.orchestrator().resource();
    assert_eq!(resource.type_val.as_deref(), Some("Pod"));
    assert_eq!(resource.name, None);
    assert!(resource.label.is_empty());
    assert!(resource.annotations.is_empty());
    assert!(resource.parent.is_none());
    assert!(json.host.is_none());
    assert!(json.container.is_none());
    assert!(json.service.is_none());
}

#[test]
fn image_reference_without_digest_gives_no_hash() {
    let mut k = Kubernetes::new();
    k.container_hash = Some("registry.example/postfix:3.5".to_string());
    let mut json = FluentBitJson::new();
    json.kubernetes = Some(k);
    convert_kubernetes_metadata(&mut json);
    assert!(json.container.is_none());
}

#[test]
fn labels_that_are_no_texts_name_no_service() {
    let mut k = Kubernetes::new();
    k.labels = serde_json::from_str(r#"{"app.kubernetes.io/name": 5, "tier": ["a", "b"]}"#).unwrap();
    let mut json = FluentBitJson::new();
    json.kubernetes = Some(k);
    convert_kubernetes_metadata(&mut json);
    assert!(json.service.is_none());
    let mut label = json.orchestrator().resource().label.clone();
    label.sort();
    assert_eq!(label, texts(&["app.kubernetes.io/name:5", "tier:[\"a\",\"b\"]"]));
}
