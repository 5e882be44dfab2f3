use fedcore::commands::matrix::{
    cluster_header, component_path_candidates, component_ref, find_component_path, matrix_command,
    matrix_documents, matrix_entry, normalized_cluster_dir, DirProbe, MatrixError,
};
use fedcore::json::Json;

fn strings(v: &[&str]) -> Vec<String> {
    v.iter().map(|s| s.to_string()).collect()
}

fn s(x: &str) -> Json {
    Json::Str(x.to_string())
}

fn obj(pairs: Vec<(&str, Json)>) -> Json {
    Json::Object(pairs.into_iter().map(|(k, v)| (k.to_string(), v)).collect())
}

fn probe(is_dir: bool, base: bool, file: bool) -> DirProbe {
    DirProbe { is_dir, has_base_dir: base, has_component_file: file }
}

#[test]
fn matrix_command_renders_cluster_matrix() {
    let c = matrix_command("/tmp/cluster.yaml");
    assert_eq!(c.program, "ytt");
    assert_eq!(
        c.args,
        strings(&["-f", "platform/clusters/schema.yaml", "-f", "/tmp/cluster.yaml", "-f", "platform/build/matrix"])
    );
}

#[test]
fn matrix_documents_are_trimmed_non_empty_pieces() {
    let out = "#! header\ncluster_name: dev\n---\ncomponent:\n  name: a\n\n---\n   \n---\ncomponent: b";
    assert_eq!(
        matrix_documents(out),
        strings(&["#! header\ncluster_name: dev", "component:\n  name: a", "component: b"])
    );
    assert!(matrix_documents("  \n").is_empty());
}

#[test]
fn cluster_header_reads_name_and_overlays() {
    let h = obj(vec![("cluster_name", s("dev")), ("overlays", Json::Array(vec![s("aws"), s(""), Json::Number(Some(3)), s("prod")]))]);
    let (name, overlays) = cluster_header(&h).ok().unwrap();
    assert_eq!(name, "dev");
    assert_eq!(overlays, strings(&["aws", "prod"]));
    let (_, none) = cluster_header(&obj(vec![("cluster_name", s("x"))])).ok().unwrap();
    assert!(none.is_empty());
    assert_eq!(cluster_header(&obj(vec![])).err(), Some(MatrixError::MissingClusterName));
}

#[test]
fn component_ref_defaults_namespace_to_id() {
    let d = obj(vec![("component", obj(vec![("name", s("capsule")), ("id", s("capsule-a"))]))]);
    assert_eq!(
        component_ref(&d).ok(),
        Some(("capsule".to_string(), "capsule-a".to_string(), "capsule-a".to_string()))
    );
    let d = obj(vec![("component", obj(vec![("name", s("c")), ("id", s("i")), ("namespace", s("ns"))]))]);
    assert_eq!(component_ref(&d).ok().map(|r| r.2), Some("ns".to_string()));
    assert_eq!(component_ref(&obj(vec![])).err(), Some(MatrixError::MissingComponentName));
    let no_id = obj(vec![("component", obj(vec![("name", s("c"))]))]);
    assert_eq!(component_ref(&no_id).err(), Some(MatrixError::MissingComponentId));
}

#[test]
fn matrix_error_messages() {
    assert_eq!(MatrixError::EmptyOutput.message(), "empty matrix output");
    assert_eq!(MatrixError::MissingClusterName.message(), "missing cluster_name");
    assert_eq!(MatrixError::MissingComponentName.message(), "missing component name");
    assert_eq!(MatrixError::MissingComponentId.message(), "missing component id");
}

#[test]
fn matrix_entry_targets_id_and_cluster() {
    let e = matrix_entry(
        "platform/clusters/dev",
        "dev",
        &strings(&["aws", "prod"]),
        "platform/components/capsule".to_string(),
        "capsule-a",
        "capsule-system",
        "component:\n  name: capsule",
    );
    assert_eq!(e.target_name, "capsule-a-dev");
    assert_eq!(e.artifact_path, "platform/components/capsule");
    assert_eq!(e.cluster, "platform/clusters/dev");
    assert_eq!(e.cluster_name, "dev");
    assert_eq!(e.component_id, "capsule-a");
    assert_eq!(e.component_namespace, "capsule-system");
    assert_eq!(e.component_data_values_yaml, "component:\n  name: capsule");
    assert_eq!(e.overlays, strings(&["aws", "prod"]));
}

#[test]
fn component_path_prefers_components_then_rgds() {
    assert_eq!(
        component_path_candidates("ns"),
        ("platform/components/ns".to_string(), "platform/rgds/ns".to_string())
    );
    assert_eq!(find_component_path("a", &probe(true, true, false), &probe(true, true, true)), Some("platform/components/a".to_string()));
    assert_eq!(find_component_path("a", &probe(true, false, false), &probe(true, false, true)), Some("platform/rgds/a".to_string()));
    assert_eq!(find_component_path("a", &probe(false, true, true), &probe(false, false, false)), None);
}

#[test]
fn cluster_dir_is_normalized_without_trailing_slash() {
    assert_eq!(normalized_cluster_dir("platform\\clusters\\dev\\"), "platform/clusters/dev");
    assert_eq!(normalized_cluster_dir("platform/clusters/dev//"), "platform/clusters/dev");
}
