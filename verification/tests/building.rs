use fedcore::commands::build::{
    apply_postrender_overlays, apply_prerender_overlays, batch_summary, chart_ref, check_build_inputs,
    collect_overlay_dirs, dist_manifest_paths, dist_output_path, dist_stream, execute, helm_namespace,
    helm_template_command, oci_layout_dir, overlay_dir_paths, resolve_image_digests,
    resolve_push_config, select_build_entries, BuildArgs, BuildError, BuildInputError, PushConfig,
    PushConfigError,
};
use fedcore::types::{BuildMatrixEntry, HelmConfig};

fn strings(v: &[&str]) -> Vec<String> {
    v.iter().map(|s| s.to_string()).collect()
}

fn entry(artifact: &str, id: &str, target: &str) -> BuildMatrixEntry {
    BuildMatrixEntry {
        artifact_path: artifact.to_string(),
        cluster: "platform/clusters/dev".to_string(),
        cluster_name: "dev".to_string(),
        target_name: target.to_string(),
        component_id: id.to_string(),
        component_namespace: id.to_string(),
        component_data_values_yaml: String::new(),
        overlays: Vec::new(),
    }
}

fn args() -> BuildArgs {
    BuildArgs {
        artifact: None,
        cluster: None,
        id: None,
        all: false,
        push: false,
        registry: None,
        version: None,
        repo_url: None,
        ref_name: None,
        sha: None,
    }
}

fn helm(resolved: &str, namespace: Option<&str>) -> HelmConfig {
    HelmConfig {
        chart: "capsule".to_string(),
        version: "0.7.0".to_string(),
        source_repo: "https://projectcapsule.github.io/charts".to_string(),
        resolved_chart_ref: resolved.to_string(),
        namespace: namespace.map(|n| n.to_string()),
        values_yaml: String::new(),
        flags: Vec::new(),
    }
}

#[test]
fn overlay_dir_paths_name_both_stages() {
    let (pre, post) = overlay_dir_paths("platform/components/capsule", "aws");
    assert_eq!(pre, "platform/components/capsule/overlays/aws/pre-render");
    assert_eq!(post, "platform/components/capsule/overlays/aws/post-render");
}

#[test]
fn collect_overlay_dirs_keeps_existing_ones_in_order() {
    let (pre, post) = collect_overlay_dirs(
        "c",
        &strings(&["aws", "prod", "eu"]),
        &vec![true, false, true],
        &vec![false, true, false],
    );
    assert_eq!(pre, strings(&["c/overlays/aws/pre-render", "c/overlays/eu/pre-render"]));
    assert_eq!(post, strings(&["c/overlays/prod/post-render"]));
}

#[test]
fn prerender_command_merges_component_with_cluster() {
    let c = apply_prerender_overlays("c/component.yaml", "/tmp/cluster.yaml", &strings(&["c/overlays/aws/pre-render"]), "/tmp/values.yaml");
    assert_eq!(c.program, "ytt");
    assert_eq!(
        c.args,
        strings(&[
            "-f",
            "platform/clusters/schema.yaml",
            "-f",
            "/tmp/cluster.yaml",
            "-f",
            "c/component.yaml",
            "-f",
            "platform/build/prerender",
            "--data-values-file",
            "/tmp/values.yaml",
            "-f",
            "c/overlays/aws/pre-render",
        ])
    );
}

#[test]
fn postrender_command_adds_base_overlays_and_cluster_overlays() {
    let c = apply_postrender_overlays(
        "/tmp/rendered.yaml",
        "/tmp/cluster.yaml",
        "platform/clusters/dev",
        Some("c/base".to_string()),
        &strings(&["c/overlays/aws/post-render"]),
        "/tmp/values.yaml",
        true,
    );
    assert_eq!(
        c.args,
        strings(&[
            "--ignore-unknown-comments",
            "-f",
            "platform/clusters/schema.yaml",
            "-f",
            "/tmp/cluster.yaml",
            "-f",
            "/tmp/rendered.yaml",
            "--data-values-file",
            "/tmp/values.yaml",
            "-f",
            "c/base",
            "-f",
            "c/overlays/aws/post-render",
            "-f",
            "platform/clusters/dev/overlays",
        ])
    );
    let bare = apply_postrender_overlays("m", "cf", "cd", None, &Vec::new(), "v", false);
    assert_eq!(
        bare.args,
        strings(&["--ignore-unknown-comments", "-f", "platform/clusters/schema.yaml", "-f", "cf", "-f", "m", "--data-values-file", "v"])
    );
}

#[test]
fn image_digests_are_resolved_by_kbld_on_stdin() {
    let c = resolve_image_digests();
    assert_eq!(c.program, "kbld");
    assert_eq!(c.args, strings(&["-f", "-"]));
}

#[test]
fn chart_ref_prefers_resolved_reference() {
    assert_eq!(chart_ref(&helm("", None)), "https://projectcapsule.github.io/charts/capsule");
    assert_eq!(chart_ref(&helm("oci://mirror.io/charts", None)), "oci://mirror.io/charts/capsule");
}

#[test]
fn helm_namespace_prefers_chart_namespace() {
    assert_eq!(helm_namespace(&helm("", Some("capsule-system")), "capsule"), "capsule-system");
    assert_eq!(helm_namespace(&helm("", None), "capsule"), "capsule");
}

#[test]
fn helm_template_command_appends_flags() {
    let c = helm_template_command("capsule", "/tmp/capsule.tgz", "capsule-system", "/tmp/values.yaml", &strings(&["--include-crds"]));
    assert_eq!(c.program, "helm");
    assert_eq!(
        c.args,
        strings(&[
            "template",
            "capsule",
            "/tmp/capsule.tgz",
            "--namespace",
            "capsule-system",
            "--values",
            "/tmp/values.yaml",
            "--include-crds",
        ])
    );
}

#[test]
fn build_inputs_check_artifact_then_cluster() {
    assert_eq!(check_build_inputs(false, false), Err(BuildInputError::ArtifactDirMissing));
    assert_eq!(check_build_inputs(true, false), Err(BuildInputError::ClusterDirMissing));
    assert_eq!(check_build_inputs(true, true), Ok(()));
}

#[test]
fn dist_paths_are_sorted_yaml_files() {
    assert_eq!(dist_output_path("capsule-dev"), "dist/capsule-dev.yaml");
    let entries = vec![entry("b", "b", "kro-dev"), entry("a", "a", "capsule-dev")];
    assert_eq!(dist_manifest_paths(&entries), strings(&["dist/capsule-dev.yaml", "dist/kro-dev.yaml"]));
}

#[test]
fn dist_stream_separates_non_empty_manifests() {
    assert_eq!(dist_stream(&strings(&["a: 1\n", "", "b: 2\n"])), "---\na: 1\n---\nb: 2\n");
    assert_eq!(dist_stream(&Vec::new()), "");
}

#[test]
fn select_build_entries_filters_by_artifact_and_id() {
    let entries = vec![entry("c", "one", "one-dev"), entry("k", "k", "k-dev"), entry("c", "two", "two-dev")];
    let kept = select_build_entries(entries, &Some("c".to_string()), &None).unwrap();
    assert_eq!(kept.iter().map(|e| e.target_name.as_str()).collect::<Vec<_>>(), vec!["one-dev", "two-dev"]);
    let entries = vec![entry("c", "one", "one-dev"), entry("c", "two", "two-dev")];
    let kept = select_build_entries(entries, &Some("c".to_string()), &Some("two".to_string())).unwrap();
    assert_eq!(kept.len(), 1);
    assert_eq!(kept[0].target_name, "two-dev");
    assert!(select_build_entries(vec![entry("c", "one", "x")], &Some("z".to_string()), &None).is_none());
}

#[test]
fn push_config_takes_options_then_fallbacks() {
    let mut a = args();
    a.registry = Some("reg.io".to_string());
    a.sha = Some("abc".to_string());
    let c = resolve_push_config(&a, Some("env.io".into()), Some("git@x:y.git".into()), Some("main".into()), Some("def".into()), true)
        .ok()
        .unwrap();
    assert_eq!(c.registry, "reg.io");
    assert_eq!(c.version, "latest");
    assert_eq!(c.repo_url, "git@x:y.git");
    assert_eq!(c.ref_name, "main");
    assert_eq!(c.sha, "abc");
}

#[test]
fn push_config_reports_first_missing_setting() {
    let a = args();
    let full = |r: Option<&str>, u: Option<&str>, b: Option<&str>, s: Option<&str>, creds: bool| {
        resolve_push_config(&a, r.map(String::from), u.map(String::from), b.map(String::from), s.map(String::from), creds)
            .err()
    };
    assert_eq!(full(None, Some("u"), Some("b"), Some("s"), true), Some(PushConfigError::MissingRegistry));
    assert_eq!(full(Some("r"), None, Some("b"), Some("s"), true), Some(PushConfigError::MissingRepoUrl));
    assert_eq!(full(Some("r"), Some("u"), None, Some("s"), true), Some(PushConfigError::MissingRefName));
    assert_eq!(full(Some("r"), Some("u"), Some("b"), None, true), Some(PushConfigError::MissingSha));
    assert_eq!(full(Some("r"), Some("u"), Some("b"), Some("s"), false), Some(PushConfigError::MissingCredentials));
    assert_eq!(PushConfigError::MissingRegistry.message(), "Push requires --registry or OCI_REGISTRY");
    assert_eq!(PushConfigError::MissingRepoUrl.message(), "Push requires --repo-url or git remote origin");
    assert_eq!(PushConfigError::MissingRefName.message(), "Push requires --ref-name or a git branch");
    assert_eq!(PushConfigError::MissingSha.message(), "Push requires --sha or a git repo");
    assert_eq!(
        PushConfigError::MissingCredentials.message(),
        "Push requires OCI_REGISTRY_USER and OCI_REGISTRY_PASS env vars"
    );
}

#[test]
fn push_command_points_flux_at_the_artifact() {
    let cfg = PushConfig {
        registry: "reg.io".to_string(),
        version: "1.0".to_string(),
        repo_url: "https://git/x".to_string(),
        ref_name: "main".to_string(),
        sha: "abc".to_string(),
    };
    assert_eq!(oci_layout_dir("capsule-dev"), "oci-layout/capsule-dev");
    let c = cfg.push("capsule-dev", "u:p", false);
    assert_eq!(c.program, "flux");
    assert_eq!(
        c.args,
        strings(&[
            "push",
            "artifact",
            "oci://reg.io/fedcore/capsule-dev:1.0",
            "--path=oci-layout/capsule-dev",
            "--source=https://git/x",
            "--revision=main@sha1:abc",
            "--creds=u:p",
        ])
    );
    assert_eq!(cfg.push("capsule-dev", "u:p", true).args[6], "--creds=***");
}

#[test]
fn batch_summary_counts_failures() {
    assert_eq!(batch_summary(0, 3, "Built", "failed to build"), (true, "Built 3 artifacts".to_string()));
    assert_eq!(batch_summary(2, 5, "Built", "failed to build"), (false, "2/5 failed to build".to_string()));
}

#[test]
fn build_execute_selects_entries_without_pushing() {
    let mut a = args();
    a.artifact = Some("c".to_string());
    let plan = execute(&a, None, None, None, None, false, vec![entry("c", "c", "c-dev"), entry("k", "k", "k-dev")])
        .ok()
        .unwrap();
    assert_eq!(plan.entries.len(), 1);
    assert_eq!(plan.entries[0].target_name, "c-dev");
    assert!(plan.push.is_none());
}

#[test]
fn build_execute_settles_push_before_entries() {
    let mut a = args();
    a.push = true;
    let e = execute(&a, None, Some("u".into()), Some("b".into()), Some("s".into()), true, Vec::new()).err().unwrap();
    assert_eq!(e, BuildError::Push(PushConfigError::MissingRegistry));
    assert_eq!(e.message(), "Push requires --registry or OCI_REGISTRY");
    let plan = execute(&a, Some("r".into()), Some("u".into()), Some("b".into()), Some("s".into()), true, vec![entry("c", "c", "c-dev")])
        .ok()
        .unwrap();
    assert_eq!(plan.push.map(|p| p.registry), Some("r".to_string()));
}

#[test]
fn build_execute_without_matches_fails() {
    let mut a = args();
    a.id = Some("none".to_string());
    let e = execute(&a, None, None, None, None, false, vec![entry("c", "c", "c-dev")]).err().unwrap();
    assert_eq!(e, BuildError::NoMatchingComponents);
    assert_eq!(e.message(), "No matching components found");
}

#[test]
fn build_input_errors_name_the_missing_directory() {
    assert_eq!(BuildInputError::ArtifactDirMissing.message("a", "c"), "artifact directory not found at a");
    assert_eq!(BuildInputError::ClusterDirMissing.message("a", "c"), "cluster directory not found at c");
}
