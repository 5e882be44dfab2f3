use fedcore::commands::init::{
    cluster_directory, component_directory, default_region, execute, init_cluster, init_component, init_project, region_prompt, validate_account_id,
    validate_name, ChartAnswers, Cloud, ClusterAnswers, ComponentAnswers, ComponentKind, Environment,
    FileContent, InitAnswers, InitError, InitPlan, InitSubcommand, ProjectAnswers, DEFAULT_CHART_REPO,
    DEFAULT_CHART_VERSION, DEFAULT_PROJECT_NAME,
};

fn files(p: &InitPlan) -> Vec<(String, String)> {
    p.files
        .iter()
        .map(|f| {
            let c = match &f.content {
                FileContent::Text(t) => format!("text:{}", t),
                FileContent::Template(t) => format!("template:{}", t),
            };
            (f.path.clone(), c)
        })
        .collect()
}

fn cluster(name: &str, cloud: Cloud, account: Option<&str>, exists: bool) -> ClusterAnswers {
    ClusterAnswers {
        name: name.to_string(),
        cloud,
        region: "us-east-1".to_string(),
        environment: Environment::Prod,
        aws_account_id: account.map(|a| a.to_string()),
        directory_exists: exists,
    }
}

fn component(name: &str, kind: ComponentKind, exists: bool) -> ComponentAnswers {
    ComponentAnswers { name: name.to_string(), kind, namespace: "team-ns".to_string(), directory_exists: exists }
}

fn error_text(e: &InitError) -> String {
    e.message()
}

#[test]
fn names_allow_alphanumerics_dashes_and_underscores() {
    assert_eq!(validate_name("Cluster", "prod-eu_1"), Ok(()));
    assert_eq!(validate_name("Cluster", "dév"), Ok(()));
    assert_eq!(validate_name("Cluster", ""), Err("Cluster name cannot be empty".to_string()));
    assert_eq!(
        validate_name("Component", "bad name"),
        Err("Component name must contain only alphanumeric characters, hyphens, and underscores".to_string())
    );
    assert!(validate_name("Cluster", "a/b").is_err());
}

#[test]
fn account_ids_are_twelve_numeric_bytes() {
    assert_eq!(validate_account_id("123456789012"), Ok(()));
    assert_eq!(validate_account_id("12345678901"), Err("AWS Account ID must be 12 digits".to_string()));
    assert!(validate_account_id("12345678901a").is_err());
    assert!(validate_account_id("١٢٣٤٥٦").is_ok());
}

#[test]
fn region_defaults_follow_the_cloud() {
    assert_eq!(default_region(&Cloud::Aws), "us-east-1");
    assert_eq!(default_region(&Cloud::Azure), "eastus");
    assert_eq!(default_region(&Cloud::Onprem), "dc1");
    assert_eq!(region_prompt(&Cloud::Onprem), "Datacenter");
    assert_eq!(region_prompt(&Cloud::Azure), "Region");
    assert_eq!(Cloud::Azure.name(), "azure");
    assert_eq!(Environment::Staging.name(), "staging");
    assert_eq!(DEFAULT_CHART_REPO, "https://charts.example.com");
    assert_eq!(DEFAULT_CHART_VERSION, "1.0.0");
    assert_eq!(DEFAULT_PROJECT_NAME, "my-fedcore-project");
}

#[test]
fn cluster_plan_writes_cluster_yaml() {
    let p = init_cluster(&cluster("prod-eu", Cloud::Aws, Some("123456789012"), false)).ok().unwrap();
    assert_eq!(p.dirs, vec!["platform/clusters/prod-eu".to_string(), "platform/clusters/prod-eu/overlays".to_string()]);
    let f = files(&p);
    assert_eq!(f.len(), 1);
    assert_eq!(f[0].0, "platform/clusters/prod-eu/cluster.yaml");
    let yaml = f[0].1.strip_prefix("text:").unwrap();
    assert!(yaml.starts_with("#@data/values\n---\n#! Physical facts\ncluster_name: \"prod-eu\"\ncloud: aws\nregion: us-east-1\nenvironment: prod\noverlays:\n  - aws\n  - prod\n"));
    assert!(yaml.contains("\n#! AWS-specific configuration\naws:\n  account_id: \"123456789012\"\n"));
    assert!(yaml.contains("arn:aws:iam::{account_id}:policy/{cluster_name}-TenantMaxPermissions\n"));
    assert!(yaml.ends_with("tenants: []\n  #! Example:\n  #! - name: example-tenant\n  #!   owners:\n  #!     - name: \"team-leads\"\n  #!       kind: Group\n"));
    assert_eq!(p.done, "Cluster 'prod-eu' created");
    assert_eq!(p.summary, "platform/clusters/prod-eu");
    assert_eq!(p.hint, Some("edit cluster.yaml to customize, then: fedcore bootstrap --cluster <path>".to_string()));
}

#[test]
fn cluster_plan_off_aws_has_no_account() {
    let p = init_cluster(&cluster("lab", Cloud::Onprem, Some("123456789012"), false)).ok().unwrap();
    let f = files(&p);
    assert!(!f[0].1.contains("AWS-specific"));
    assert!(f[0].1.contains("cloud: onprem\n"));
}

#[test]
fn cluster_errors_in_order() {
    let e = init_cluster(&cluster("", Cloud::Aws, None, true)).err().unwrap();
    assert!(matches!(&e, InitError::Invalid(_)));
    assert_eq!(error_text(&e), "Cluster name cannot be empty");
    let e = init_cluster(&cluster("dev", Cloud::Aws, None, true)).err().unwrap();
    assert_eq!(error_text(&e), "AWS Account ID must be 12 digits");
    let e = init_cluster(&cluster("dev", Cloud::Aws, Some("12"), false)).err().unwrap();
    assert_eq!(error_text(&e), "AWS Account ID must be 12 digits");
    let e = init_cluster(&cluster("dev", Cloud::Azure, None, true)).err().unwrap();
    assert!(matches!(&e, InitError::AlreadyExists(_)));
    assert_eq!(error_text(&e), "Cluster directory 'platform/clusters/dev' already exists");
}

#[test]
fn helm_component_plan_has_chart_and_default_values() {
    let chart = ChartAnswers {
        chart_name: "capsule".to_string(),
        chart_repo: "https://projectcapsule.github.io/charts".to_string(),
        chart_version: "0.7.0".to_string(),
    };
    let p = init_component(&component("capsule", ComponentKind::Helm(chart), false)).ok().unwrap();
    assert_eq!(
        p.dirs,
        vec!["platform/components/capsule", "platform/components/capsule/base", "platform/components/capsule/overlays"]
    );
    let f = files(&p);
    let paths: Vec<&str> = f.iter().map(|x| x.0.as_str()).collect();
    assert_eq!(
        paths,
        vec![
            "platform/components/capsule/component.yaml",
            "platform/components/capsule/base/namespace.yaml",
            "platform/components/capsule/default-values.yaml",
            "platform/components/capsule/README.md",
        ]
    );
    assert!(f[0].1.contains("helm:\n  sourceRepo: https://projectcapsule.github.io/charts\n  chart: capsule\n  version: \"0.7.0\"\n"));
    assert!(f[0].1.contains("else \"https://projectcapsule.github.io/charts\"\n"));
    assert!(f[0].1.contains("  release:\n    name: capsule\n    namespace: team-ns\n"));
    assert_eq!(f[1].1, "text:apiVersion: v1\nkind: Namespace\nmetadata:\n  name: capsule\n  labels:\n    name: capsule\n");
    assert!(f[2].1.starts_with("text:#@data/values\n---\n#! Default values for capsule component\n"));
    assert!(f[3].1.starts_with("text:# capsule\n\nComponent type: helm\n\n## Description\n"));
    assert_eq!(p.done, "Component 'capsule' created");
    assert_eq!(p.hint, Some("edit component.yaml to customize, add manifests to base/".to_string()));
}

#[test]
fn plain_component_plans_skip_default_values() {
    let p = init_component(&component("web", ComponentKind::Manifests, false)).ok().unwrap();
    let f = files(&p);
    assert_eq!(f.len(), 3);
    assert_eq!(
        f[0].1,
        "text:#@ load(\"@ytt:data\", \"data\")\n---\n#! Namespace configuration\nnamespace: team-ns\n\n#! Component description\ndescription: \"Custom Kubernetes manifests for web\"\n"
    );
    let p = init_component(&component("k", ComponentKind::Kustomize, false)).ok().unwrap();
    let f = files(&p);
    assert_eq!(
        f[0].1,
        "text:#@ load(\"@ytt:data\", \"data\")\n---\n#! Namespace configuration\nnamespace: team-ns\n\n#! Kustomize configuration\nkustomize:\n  path: base\n"
    );
    assert!(f[2].1.contains("Component type: kustomize\n"));
}

#[test]
fn component_errors() {
    let e = init_component(&component("a b", ComponentKind::Manifests, false)).err().unwrap();
    assert_eq!(error_text(&e), "Component name must contain only alphanumeric characters, hyphens, and underscores");
    let e = init_component(&component("web", ComponentKind::Manifests, true)).err().unwrap();
    assert_eq!(error_text(&e), "Component directory 'platform/components/web' already exists");
}

#[test]
fn project_plan_lays_out_platform_tree() {
    let p = init_project(&ProjectAnswers { name: "demo".to_string(), directory_exists: false }).ok().unwrap();
    assert_eq!(p.dirs.len(), 19);
    assert_eq!(p.dirs[0], "demo");
    assert_eq!(p.dirs[1], "demo/platform");
    assert_eq!(p.dirs[16], "demo/docs");
    assert_eq!(p.dirs[18], "demo/platform/clusters/example-cluster/overlays");
    let f = files(&p);
    assert_eq!(f.len(), 28);
    assert_eq!(f[0].0, "demo/README.md");
    assert!(f[0].1.starts_with("text:# demo\n\nA FedCore platform deployment project.\n"));
    assert!(f[0].1.contains("```\ndemo\n├── docs/"));
    assert_eq!(f[2], ("demo/platform/clusters/schema.yaml".to_string(), "template:platform/clusters/schema-minimal.yaml".to_string()));
    assert_eq!(f[4], ("demo/docs/README.md".to_string(), "text:# FedCore Platform Documentation\n".to_string()));
    assert_eq!(
        f[10],
        (
            "demo/platform/bootstrap/component-sources/base/flux-ca-certificates.yaml".to_string(),
            "template:platform/bootstrap/cluster/base/flux-ca-certificates.yaml".to_string()
        )
    );
    assert_eq!(f[20].1, "template:platform/components/kro/base/install.yaml");
    assert_eq!(f[26].0, "demo/platform/clusters/example-cluster/cluster.yaml");
    assert!(f[26].1.contains("cluster_name: \"example-cluster\""));
    assert_eq!(f[27].0, "demo/platform/clusters/example-cluster/overlays/resource-limits.yaml");
    assert_eq!(p.done, "Project initialized");
    assert_eq!(p.summary, "cd demo && fedcore init cluster");
    assert!(p.hint.is_none());
}

#[test]
fn project_paths_join_without_doubling_separators() {
    let p = init_project(&ProjectAnswers { name: "out/".to_string(), directory_exists: false }).ok().unwrap();
    assert_eq!(p.dirs[1], "out/platform");
    let e = init_project(&ProjectAnswers { name: "demo".to_string(), directory_exists: true }).err().unwrap();
    assert_eq!(error_text(&e), "Directory 'demo' already exists");
}

#[test]
fn execute_runs_the_matching_subcommand() {
    let answers = InitAnswers::Project(ProjectAnswers { name: "x".to_string(), directory_exists: false });
    assert_eq!(execute(&InitSubcommand::Project, &answers).ok().unwrap().summary, "cd x && fedcore init cluster");
    let e = execute(&InitSubcommand::Cluster, &answers).err().unwrap();
    assert!(matches!(e, InitError::AnswersDoNotMatch));
    assert_eq!(error_text(&e), "the answers are not those of this subcommand");
    let c = InitAnswers::Component(component("web", ComponentKind::Manifests, false));
    assert_eq!(execute(&InitSubcommand::Component, &c).ok().unwrap().summary, "platform/components/web");
}

#[test]
fn directories_of_new_clusters_and_components() {
    assert_eq!(cluster_directory("dev"), "platform/clusters/dev");
    assert_eq!(component_directory("web"), "platform/components/web");
}

#[test]
fn plans_stay_inside_their_directory() {
    let p = init_cluster(&cluster("dev", Cloud::Azure, None, false)).ok().unwrap();
    assert!(p.dirs[1..].iter().all(|d| d.starts_with("platform/clusters/dev/")));
    assert!(p.files.iter().all(|f| f.path.starts_with("platform/clusters/dev/")));
    let chart = ChartAnswers { chart_name: "c".into(), chart_repo: "r".into(), chart_version: "1".into() };
    let p = init_component(&component("web", ComponentKind::Helm(chart), false)).ok().unwrap();
    assert!(p.dirs[1..].iter().all(|d| d.starts_with("platform/components/web/")));
    assert!(p.files.iter().all(|f| f.path.starts_with("platform/components/web/")));
}
