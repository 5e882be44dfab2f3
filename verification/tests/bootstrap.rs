use fedcore::commands::bootstrap::{
    admin_prep_flux_command, bootstrap_ytt_command, cluster_yaml_path, collect_component_overlays,
    deploy_bootstrap, excluded_kinds, extract_crds, flux_install_command, flux_registry, flux_summary,
    generate_admin_prep, input_error_message, namespaces_in_manifest, resolve_component_namespaces,
    secret_variables, strip_resource_kinds, substitute_secrets, validate_inputs, AdminPrepTemplates,
    BootstrapInputError,
};
use fedcore::types::FluxConfig;

fn strings(v: &[&str]) -> Vec<String> {
    v.iter().map(|s| s.to_string()).collect()
}

#[test]
fn extract_crds_keeps_crd_documents() {
    let yaml = "apiVersion: v1\nkind: ConfigMap\n---\nkind: CustomResourceDefinition\nmetadata:\n  name: a\n---\nkind: Service\n";
    assert_eq!(extract_crds(yaml), "---\nkind: CustomResourceDefinition\nmetadata:\n  name: a\n---\n");
}

#[test]
fn extract_crds_without_crds_is_empty() {
    assert_eq!(extract_crds("kind: Deployment\n---\nkind: Service\n"), "");
    assert_eq!(extract_crds(""), "");
}

#[test]
fn extract_crds_output_opens_with_separator() {
    let out = extract_crds("a: b\nkind: CustomResourceDefinition\nspec: {}\n");
    assert!(out.starts_with("---\n"));
    assert_eq!(out, "---\nkind: CustomResourceDefinition\nspec: {}\n");
}

#[test]
fn strip_resource_kinds_drops_excluded_documents() {
    let yaml = "---\nkind: Namespace\nmetadata:\n  name: x\n---\nkind: Deployment\nmetadata:\n  name: y\n";
    assert_eq!(
        strip_resource_kinds(yaml, &strings(&["Namespace"])),
        "---\nkind: Deployment\nmetadata:\n  name: y\n"
    );
}

#[test]
fn strip_resource_kinds_without_exclusions_reframes_documents() {
    let yaml = "kind: A\n---\n---\nkind: B\n";
    assert_eq!(strip_resource_kinds(yaml, &Vec::new()), "---\nkind: A\n---\nkind: B\n");
}

#[test]
fn namespaces_in_manifest_reads_namespace_lines() {
    let found = namespaces_in_manifest("metadata:\n  namespace: \"team-a\"\n---\nnamespace: 'b'\nnamespace:\n");
    assert_eq!(found, strings(&["team-a", "b"]));
}

#[test]
fn resolve_component_namespaces_sorts_and_dedups() {
    let rendered = strings(&["metadata:\n  namespace: \"team-a\"\n---\nnamespace: 'b'\n", "namespace: team-a\nnamespace:  \n"]);
    assert_eq!(resolve_component_namespaces(&rendered), strings(&["b", "team-a"]));
    assert!(resolve_component_namespaces(&Vec::new()).is_empty());
}

#[test]
fn substitute_secrets_fills_placeholders() {
    let yaml = "a: ${OCI_DOCKERCONFIG_JSON}\nh: ${SPLUNK_HEC_HOST}\nt: ${SPLUNK_HEC_TOKEN} ${SPLUNK_HEC_TOKEN}\n";
    assert_eq!(
        substitute_secrets(yaml, "{\"auths\":{}}", "hec.example.com", "tok"),
        "a: {\"auths\":{}}\nh: hec.example.com\nt: tok tok\n"
    );
}

#[test]
fn substitute_secrets_keeps_text_without_placeholders() {
    let yaml = "kind: Secret\ndata: plain\n";
    assert_eq!(substitute_secrets(yaml, "x", "y", "z"), yaml);
}

#[test]
fn secret_variables_lists_placeholder_sources() {
    assert_eq!(secret_variables(), strings(&["OCI_DOCKERCONFIG_JSON", "SPLUNK_HEC_HOST", "SPLUNK_HEC_TOKEN"]));
}

#[test]
fn flux_registry_appends_fluxcd() {
    assert_eq!(flux_registry(Some("r.io".into()), Some("e.io".into())), Some("r.io/fluxcd".to_string()));
    assert_eq!(flux_registry(None, Some("e.io".into())), Some("e.io/fluxcd".to_string()));
    assert_eq!(flux_registry(None, None), None);
}

#[test]
fn excluded_kinds_drops_empty_names() {
    assert_eq!(excluded_kinds(&strings(&["", "Namespace", ""])), strings(&["Namespace"]));
}

#[test]
fn flux_install_command_exports_full_install() {
    let c = flux_install_command("flux-system", "r.io/fluxcd");
    assert_eq!(c.program, "flux");
    assert_eq!(
        c.args,
        strings(&[
            "install",
            "--export",
            "--namespace=flux-system",
            "--components-extra=image-reflector-controller,image-automation-controller",
            "--registry=r.io/fluxcd",
            "--image-pull-secret=image-pull-secret",
        ])
    );
}

#[test]
fn admin_prep_flux_command_exports_two_controllers() {
    let c = admin_prep_flux_command("flux-system", "r.io/fluxcd");
    assert_eq!(c.program, "flux");
    assert_eq!(
        c.args,
        strings(&[
            "install",
            "--export",
            "--namespace=flux-system",
            "--components=source-controller,kustomize-controller",
            "--registry=r.io/fluxcd",
            "--image-pull-secret=image-pull-secret",
        ])
    );
}

#[test]
fn cluster_yaml_path_is_inside_cluster_dir() {
    assert_eq!(cluster_yaml_path("platform/clusters/dev"), "platform/clusters/dev/cluster.yaml");
}

#[test]
fn validate_inputs_checks_in_order() {
    assert_eq!(validate_inputs(false, false, false), Err(BootstrapInputError::ClusterDirMissing));
    assert_eq!(validate_inputs(true, false, false), Err(BootstrapInputError::ClusterYamlMissing));
    assert_eq!(validate_inputs(true, true, false), Err(BootstrapInputError::SchemaMissing));
    assert_eq!(validate_inputs(true, true, true), Ok(()));
}

#[test]
fn input_error_messages_name_the_missing_path() {
    assert_eq!(
        input_error_message(BootstrapInputError::ClusterDirMissing, "c"),
        "cluster directory not found at c"
    );
    assert_eq!(
        input_error_message(BootstrapInputError::ClusterYamlMissing, "c"),
        "cluster.yaml not found at c/cluster.yaml"
    );
    assert_eq!(
        input_error_message(BootstrapInputError::SchemaMissing, "c"),
        "cluster schema not found at platform/clusters/schema.yaml"
    );
}

#[test]
fn component_overlays_need_a_path_and_a_file() {
    let paths = vec![Some("a".to_string()), None, Some("b".to_string()), Some("c".to_string())];
    let present = vec![true, true, false, true];
    assert_eq!(collect_component_overlays(&paths, &present), strings(&["a/overlay.yaml", "c/overlay.yaml"]));
}

#[test]
fn bootstrap_ytt_command_lists_inputs_in_order() {
    let c = bootstrap_ytt_command(
        "platform/clusters/dev",
        &strings(&["x/overlay.yaml"]),
        Some("/tmp/flux.yaml".to_string()),
        true,
        true,
    );
    assert_eq!(c.program, "ytt");
    assert_eq!(
        c.args,
        strings(&[
            "-f",
            "platform/clusters/schema.yaml",
            "-f",
            "platform/clusters/dev/cluster.yaml",
            "-f",
            "x/overlay.yaml",
            "-f",
            "/tmp/flux.yaml",
            "-f",
            "platform/bootstrap/component-sources/base",
            "-f",
            "platform/clusters/dev/overlays",
        ])
    );
    let bare = bootstrap_ytt_command("c", &Vec::new(), None, false, false);
    assert_eq!(bare.args, strings(&["-f", "platform/clusters/schema.yaml", "-f", "c/cluster.yaml"]));
}

#[test]
fn generate_admin_prep_fills_templates() {
    let t = AdminPrepTemplates {
        header: "# {cluster_name}\n".to_string(),
        namespace: "ns: {ns}\n".to_string(),
        service_account: "sa: {sa} in {ns}\n".to_string(),
        source_rbac: "src {ns}\n".to_string(),
        kustomize_rbac: "kus {ns}\n".to_string(),
        deployer_rbac: "deploy {target} from {ns}\n".to_string(),
    };
    let out = generate_admin_prep(&t, "dev", "CRDS\n", "flux-system", &strings(&["a", "b"]));
    assert_eq!(
        out,
        "# dev\nCRDS\nns: flux-system\nsa: source-controller in flux-system\nsa: kustomize-controller in flux-system\nsrc flux-system\nkus flux-system\ndeploy a from flux-system\ndeploy b from flux-system\n"
    );
}

#[test]
fn flux_summary_shows_install_and_namespace() {
    let f = FluxConfig { install: false, namespace: "gitops".to_string(), exclude_kinds: Vec::new() };
    assert_eq!(flux_summary(&f), "false (ns: gitops)");
    assert_eq!(flux_summary(&FluxConfig::default()), "true (ns: flux-system)");
}

#[test]
fn deploy_bootstrap_checks_cluster_then_applies() {
    let c = deploy_bootstrap();
    assert_eq!(c.len(), 2);
    assert_eq!(c[0].program, "kubectl");
    assert_eq!(c[0].args, strings(&["cluster-info"]));
    assert_eq!(c[1].program, "kubectl");
    assert_eq!(c[1].args, strings(&["apply", "-f", "-"]));
}
