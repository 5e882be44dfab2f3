use fedcore::commands::inspect::{
    classify_target, deployed_artifact_ref, deployed_query_args, is_remote_target, oci_artifact_ref,
    pull_artifact_command, pull_credentials, DeployedRefError, PullCredentialError, TargetKind,
};
use fedcore::json::Json;

fn strings(v: &[&str]) -> Vec<String> {
    v.iter().map(|s| s.to_string()).collect()
}

fn s(x: &str) -> Json {
    Json::Str(x.to_string())
}

fn obj(pairs: Vec<(&str, Json)>) -> Json {
    Json::Object(pairs.into_iter().map(|(k, v)| (k.to_string(), v)).collect())
}

fn repo(url: &str, tag: Option<&str>, revision: Option<&str>) -> Json {
    let mut spec = vec![("url", s(url))];
    if let Some(t) = tag {
        spec.push(("ref", obj(vec![("tag", s(t))])));
    }
    let mut pairs = vec![("spec", obj(spec))];
    if let Some(r) = revision {
        pairs.push(("status", obj(vec![("artifact", obj(vec![("revision", s(r))]))])));
    }
    obj(pairs)
}

fn items(v: Vec<Json>) -> Json {
    obj(vec![("items", Json::Array(v))])
}

#[test]
fn remote_targets_have_scheme_or_slash() {
    assert!(is_remote_target("oci://reg/fedcore/capsule-dev:1.0"));
    assert!(is_remote_target("capsule/dev"));
    assert!(!is_remote_target("capsule"));
}

#[test]
fn existing_local_paths_are_read_from_disk() {
    assert_eq!(classify_target("platform/components/capsule", true), TargetKind::Local);
    assert_eq!(classify_target("capsule", true), TargetKind::Local);
    assert_eq!(classify_target("platform/components/capsule", false), TargetKind::Oci);
    assert_eq!(classify_target("oci://reg/fedcore/capsule-dev:1.0", false), TargetKind::Oci);
    assert_eq!(classify_target("capsule", false), TargetKind::Deployed);
}

#[test]
fn oci_artifact_ref_adds_registry_or_normalizes_scheme() {
    assert_eq!(oci_artifact_ref("capsule-dev:1.0", "reg.io"), "oci://reg.io/fedcore/capsule-dev:1.0");
    assert_eq!(oci_artifact_ref("oci://reg.io/x:1", "ignored"), "oci://reg.io/x:1");
    assert_eq!(oci_artifact_ref("oci://oci://reg.io/x:1", "ignored"), "oci://reg.io/x:1");
}

#[test]
fn deployed_query_looks_up_component_repository() {
    assert_eq!(
        deployed_query_args("kind-dev", "capsule", None),
        strings(&["--context", "kind-dev", "--request-timeout=10s", "get", "ocirepository", "-l", "fedcore.io/component=capsule", "-o", "json", "-A"])
    );
    assert_eq!(deployed_query_args("c", "k", Some("ns"))[9..].to_vec(), strings(&["-n", "ns"]));
}

#[test]
fn deployed_ref_uses_tag_then_revision_then_latest() {
    assert_eq!(
        deployed_artifact_ref(&items(vec![repo("oci://reg/fedcore/capsule-dev", Some("1.2"), Some("9@sha256:x"))])).ok(),
        Some("oci://reg/fedcore/capsule-dev:1.2".to_string())
    );
    assert_eq!(
        deployed_artifact_ref(&items(vec![repo("reg/fedcore/capsule-dev", None, Some("1.3@sha256:abc"))])).ok(),
        Some("oci://reg/fedcore/capsule-dev:1.3".to_string())
    );
    assert_eq!(
        deployed_artifact_ref(&items(vec![repo("oci://reg/x", None, Some("sha256:abc"))])).ok(),
        Some("oci://reg/x:latest".to_string())
    );
    assert_eq!(deployed_artifact_ref(&items(vec![repo("oci://reg/x", None, None)])).ok(), Some("oci://reg/x:latest".to_string()));
}

#[test]
fn deployed_ref_errors_name_what_is_missing() {
    assert_eq!(deployed_artifact_ref(&obj(vec![])).err(), Some(DeployedRefError::UnexpectedFormat));
    assert_eq!(deployed_artifact_ref(&items(vec![])).err(), Some(DeployedRefError::NotFound));
    assert_eq!(deployed_artifact_ref(&items(vec![obj(vec![])])).err(), Some(DeployedRefError::MissingUrl));
    assert_eq!(DeployedRefError::UnexpectedFormat.message("c"), "Unexpected kubectl response format");
    assert_eq!(DeployedRefError::NotFound.message("capsule"), "No OCIRepository found for component 'capsule'");
    assert_eq!(DeployedRefError::MissingUrl.message("c"), "OCIRepository missing spec.url");
}

#[test]
fn pull_credentials_prefer_options() {
    assert_eq!(
        pull_credentials(Some("u".into()), None, Some("eu".into()), Some("ep".into())),
        Ok(("u".to_string(), "ep".to_string()))
    );
    assert_eq!(pull_credentials(None, Some("p".into()), None, None), Err(PullCredentialError::MissingUsername));
    assert_eq!(pull_credentials(Some("u".into()), None, None, None), Err(PullCredentialError::MissingPassword));
    assert_eq!(
        PullCredentialError::MissingUsername.message(),
        "Registry username required for pulling (--registry-user or OCI_REGISTRY_USER)"
    );
    assert_eq!(
        PullCredentialError::MissingPassword.message(),
        "Registry password required for pulling (--registry-pass or OCI_REGISTRY_PASS)"
    );
}

#[test]
fn pull_command_masks_credentials_when_traced() {
    let c = pull_artifact_command("oci://reg/x:1", "/tmp/a", "u", "p", false);
    assert_eq!(c.program, "flux");
    assert_eq!(c.args, strings(&["pull", "artifact", "oci://reg/x:1", "--output=/tmp/a", "--creds=u:p"]));
    assert_eq!(pull_artifact_command("oci://reg/x:1", "/tmp/a", "u", "p", true).args[4], "--creds=***");
}
