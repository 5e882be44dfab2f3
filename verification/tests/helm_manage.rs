use fedcore::commands::helm_manage::{
    chart_archive_path, chart_exists_command, chart_push_command, chart_push_target, chart_render_command,
    component_info, crane_login_command, credentials_warning_due, dash_separated, default_values_path,
    get_repo_name, helm_login_command, helm_logout_command, helm_repo_setup, inspect_images,
    is_chart_values_entry, latest_version, mirror_single_image, normalize_image_ref, push_failure,
    replace_registry, select_components, strip_digest, update_component_version, ComponentInfo,
};
use fedcore::commands::helm_manage::{
    chart_search_command, component_yaml_path, image_inspect_command, chart_push_step, latest_task_failure,
    latest_tasks, searches_latest_version, LatestTask, login_failure_message, push_charts_verdict, ChartPush, ChartPushAction, ChartPushEvent,
};
use fedcore::commands::TaskFailure;
use fedcore::json::Json;

fn strings(v: &[&str]) -> Vec<String> {
    v.iter().map(|s| s.to_string()).collect()
}

fn s(x: &str) -> Json {
    Json::Str(x.to_string())
}

fn obj(pairs: Vec<(&str, Json)>) -> Json {
    Json::Object(pairs.into_iter().map(|(k, v)| (k.to_string(), v)).collect())
}

fn info(name: &str, repo: &str) -> ComponentInfo {
    ComponentInfo {
        name: name.to_string(),
        chart: "chart".to_string(),
        repo: repo.to_string(),
        version: "1.0.0".to_string(),
        component_path: format!("components/{}", name),
    }
}

#[test]
fn repo_name_is_lowercase_with_dashes() {
    assert_eq!(get_repo_name("My_Chart"), "my-chart");
    assert_eq!(get_repo_name("CAPSULE"), "capsule");
    assert_eq!(dash_separated("a_b__c"), "a-b--c");
}

#[test]
fn repo_name_never_keeps_underscores() {
    for name in ["_", "a_", "__x__", "Ü_ber_"] {
        assert!(!get_repo_name(name).contains('_'));
    }
}

#[test]
fn component_chart_ref_uses_oci_repo_or_added_name() {
    let mut c = info("Cert_Manager", "https://charts.jetstack.io");
    c.chart = "cert-manager".to_string();
    assert_eq!(c.chart_ref(), "cert-manager/cert-manager");
    let mut o = info("kro", "oci://ghcr.io/kro-run/kro");
    o.chart = "kro".to_string();
    assert_eq!(o.chart_ref(), "oci://ghcr.io/kro-run/kro/kro");
}

#[test]
fn component_info_needs_name_chart_and_repo() {
    let data = obj(vec![
        ("name", s("capsule")),
        ("helm", obj(vec![("chart", s("capsule")), ("sourceRepo", s("https://x")), ("version", s("0.7.0"))])),
    ]);
    let c = component_info("capsule", &data).unwrap();
    assert_eq!((c.name.as_str(), c.chart.as_str(), c.repo.as_str(), c.version.as_str()), ("capsule", "capsule", "https://x", "0.7.0"));
    assert_eq!(c.component_path, "components/capsule");
    let no_repo = obj(vec![("name", s("x")), ("helm", obj(vec![("chart", s("x"))]))]);
    assert!(component_info("x", &no_repo).is_none());
    let no_version = obj(vec![("name", s("y")), ("helm", obj(vec![("chart", s("y")), ("sourceRepo", s("r"))]))]);
    assert_eq!(component_info("y", &no_version).unwrap().version, "");
}

#[test]
fn select_components_matches_names_paths_or_all() {
    let cs = vec![info("capsule", "r"), info("kro", "r"), info("cert-manager", "r")];
    assert_eq!(select_components(&cs, "all"), vec![0, 1, 2]);
    assert_eq!(select_components(&cs, "kro"), vec![1]);
    assert_eq!(select_components(&cs, "platform/components/capsule/, cert-manager"), vec![0, 2]);
    assert!(select_components(&cs, "missing").is_empty());
}

#[test]
fn latest_version_skips_header_and_deprecated_rows() {
    let listing = "NAME\tCHART VERSION\tAPP VERSION\nrepo/x\t2.0.0\t2.0\tDEPRECATED old\nrepo/x\t1.9.0\t1.9\tstable\nrepo/x\t1.8.0\t1.8\n";
    assert_eq!(latest_version(listing), Some("1.9.0".to_string()));
    assert_eq!(latest_version("NAME\tCHART VERSION\n"), None);
    assert_eq!(latest_version(""), None);
}

#[test]
fn update_component_version_rewrites_helm_version_only() {
    let content = "name: capsule\nversion: keep\nhelm:\n  chart: capsule\n  version: \"0.6.0\"\n  values:\n    version: keep\nother:\n  version: keep\n";
    assert_eq!(
        update_component_version(content, "0.7.0"),
        "name: capsule\nversion: keep\nhelm:\n  chart: capsule\n  version: \"0.7.0\"\n  values:\n    version: keep\nother:\n  version: keep"
    );
}

#[test]
fn update_component_version_changes_one_line_at_most() {
    let content = "helm:\n  version: 1\n  version: 2\n";
    let out = update_component_version(content, "3");
    let before: Vec<&str> = content.lines().collect();
    let after: Vec<&str> = out.lines().collect();
    assert_eq!(before.len(), after.len());
    assert_eq!(before.iter().zip(after.iter()).filter(|(a, b)| a != b).count(), 1);
}

#[test]
fn chart_values_entry_is_top_level_values_file() {
    assert!(is_chart_values_entry("capsule/values.yaml"));
    assert!(!is_chart_values_entry("capsule/charts/sub/values.yaml"));
    assert!(!is_chart_values_entry("values.yaml"));
}

#[test]
fn chart_paths_are_formed_from_parts() {
    assert_eq!(default_values_path("components/capsule"), "platform/components/capsule/default-values.yaml");
    assert_eq!(chart_archive_path("/tmp/x", "capsule", "0.7.0"), "/tmp/x/capsule-0.7.0.tgz");
}

#[test]
fn repo_setup_adds_http_repositories_then_updates() {
    let cs = vec![info("Cert_Manager", "https://charts.jetstack.io"), info("kro", "oci://ghcr.io/kro"), info("capsule", "https://c")];
    let cmds = helm_repo_setup(&cs);
    assert_eq!(cmds.len(), 3);
    assert_eq!(cmds[0].args, strings(&["repo", "add", "cert-manager", "https://charts.jetstack.io"]));
    assert_eq!(cmds[1].args, strings(&["repo", "add", "capsule", "https://c"]));
    assert_eq!(cmds[2].args, strings(&["repo", "update", "cert-manager", "capsule"]));
    assert!(cmds.iter().all(|c| c.program == "helm"));
    assert!(helm_repo_setup(&vec![info("kro", "oci://x")]).is_empty());
}

#[test]
fn chart_push_target_strips_scheme() {
    let (url, reference) = chart_push_target("oci://reg.io", "capsule", "0.7.0");
    assert_eq!(url, "oci://reg.io/fedcore/helm-charts");
    assert_eq!(reference, "reg.io/fedcore/helm-charts/capsule:0.7.0");
    assert_eq!(chart_push_target("reg.io", "c", "1").0, "oci://reg.io/fedcore/helm-charts");
}

#[test]
fn helm_registry_commands() {
    assert_eq!(helm_login_command("reg.io", "u", "p", false).args, strings(&["registry", "login", "reg.io", "-u", "u", "-p", "p"]));
    assert_eq!(helm_login_command("reg.io", "u", "p", true).args[6], "***");
    assert_eq!(helm_logout_command("reg.io").args, strings(&["registry", "logout", "reg.io"]));
    assert_eq!(
        chart_exists_command("reg.io/fedcore/helm-charts/capsule", "0.7.0").args,
        strings(&["pull", "oci://reg.io/fedcore/helm-charts/capsule", "--version", "0.7.0", "--destination", "/tmp"])
    );
    assert_eq!(chart_push_command("/tmp/c.tgz", "oci://reg.io/x").args, strings(&["push", "/tmp/c.tgz", "oci://reg.io/x"]));
}

#[test]
fn push_failure_ignores_existing_charts() {
    assert!(push_failure("c", "1", "Error: already exists").is_none());
    assert!(push_failure("c", "1", "manifest unknown").is_none());
    let f = push_failure("capsule", "0.7.0", "  denied \n").unwrap();
    assert_eq!(f.name, "capsule:0.7.0");
    assert_eq!(f.error, Some("denied".to_string()));
}

#[test]
fn inspect_images_lists_each_image_once() {
    let row = |img: &str| obj(vec![("image", s(img))]);
    let parsed = obj(vec![(
        "Tables",
        Json::Array(vec![
            obj(vec![("Rows", Json::Array(vec![row("a:1"), row("b:2"), obj(vec![])]))]),
            obj(vec![("Rows", Json::Array(vec![row("a:1"), row("c:3")]))]),
        ]),
    )]);
    let mut images = inspect_images(&parsed);
    images.sort();
    assert_eq!(images, strings(&["a:1", "b:2", "c:3"]));
    assert!(inspect_images(&obj(vec![])).is_empty());
}

#[test]
fn strip_digest_drops_digest_after_tag() {
    assert_eq!(strip_digest("nginx:1.25@sha256:abc"), "nginx:1.25");
    assert_eq!(strip_digest("nginx@sha256:abc"), "nginx");
    assert_eq!(strip_digest("nginx@latest"), "nginx@latest");
    assert_eq!(strip_digest("nginx:1.25"), "nginx:1.25");
}

#[test]
fn strip_digest_twice_is_strip_digest_once() {
    for img in ["a:1@sha256:x@y", "plain", "x:1@d"] {
        let once = strip_digest(img);
        assert_eq!(strip_digest(&once), once);
    }
}

#[test]
fn normalize_image_ref_spells_out_docker_hub() {
    assert_eq!(normalize_image_ref("nginx:latest"), "docker.io/library/nginx:latest");
    assert_eq!(normalize_image_ref("nginx:1.25"), "nginx:1.25");
    assert_eq!(normalize_image_ref("bitnami/redis:7"), "docker.io/bitnami/redis:7");
    assert_eq!(normalize_image_ref("ghcr.io/x/y:1@sha256:abc"), "ghcr.io/x/y:1");
}

#[test]
fn replace_registry_moves_image_under_target() {
    assert_eq!(replace_registry("docker.io/bitnami/redis:7", "mirror.io"), "mirror.io/bitnami/redis:7");
    assert_eq!(replace_registry("registry.example.com:5000/team/app:1", "mirror.io"), "mirror.io/team/app:1");
    assert_eq!(replace_registry("bitnami/redis:7", "mirror.io"), "mirror.io/bitnami/redis:7");
    assert_eq!(replace_registry("nginx:1", "mirror.io"), "mirror.io/library/nginx:1");
    for img in ["quay.io/a/b", "x", "a.b/c", "k8s.gcr.io/pause:3"] {
        assert!(replace_registry(img, "m.io").starts_with("m.io/"));
    }
}

#[test]
fn mirror_single_image_copies_with_crane() {
    let c = mirror_single_image("nginx:latest@sha256:abc", "mirror.io");
    assert_eq!(c.program, "crane");
    assert_eq!(c.args, strings(&["copy", "docker.io/library/nginx:latest", "mirror.io/library/nginx:latest"]));
    assert_eq!(crane_login_command("m.io", "u", "p", true).args, strings(&["auth", "login", "m.io", "-u", "u", "-p", "***"]));
}

#[test]
fn chart_render_and_credentials_warning() {
    assert_eq!(chart_render_command("/tmp/t", "capsule").args, strings(&["template", "temp-release", "/tmp/t/capsule"]));
    assert!(credentials_warning_due(true, false, true, false, true));
    assert!(!credentials_warning_due(false, false, false, false, false));
    assert!(!credentials_warning_due(false, true, true, true, true));
}

fn capsule() -> ComponentInfo {
    ComponentInfo {
        name: "capsule".to_string(),
        chart: "capsule".to_string(),
        repo: "https://c".to_string(),
        version: "0.7.0".to_string(),
        component_path: "components/capsule".to_string(),
    }
}

fn run_args(a: &ChartPushAction) -> Vec<String> {
    match a {
        ChartPushAction::Run(c) => {
            let mut v = vec![c.program.clone()];
            v.extend(c.args.iter().cloned());
            v
        }
        ChartPushAction::LookFor(p) => vec!["look".to_string(), p.clone()],
        ChartPushAction::Stop => vec!["stop".to_string()],
    }
}

#[test]
fn chart_push_checks_archive_then_registry_then_pushes() {
    let c = capsule();
    let (st, a) = chart_push_step(&c, "/tmp/charts", "oci://reg.io", ChartPush::Start, ChartPushEvent::Begin);
    assert!(matches!(st, ChartPush::AwaitArchive));
    assert_eq!(run_args(&a), strings(&["look", "/tmp/charts/capsule-0.7.0.tgz"]));
    let (st, a) = chart_push_step(&c, "/tmp/charts", "oci://reg.io", st, ChartPushEvent::ArchiveFound(true));
    assert!(matches!(st, ChartPush::AwaitCheck));
    assert_eq!(
        run_args(&a),
        strings(&["helm", "pull", "oci://reg.io/fedcore/helm-charts/capsule:0.7.0", "--version", "0.7.0", "--destination", "/tmp"])
    );
    let (st, a) = chart_push_step(&c, "/tmp/charts", "oci://reg.io", st, ChartPushEvent::Exited { success: false, stderr: "not found".into() });
    assert!(matches!(st, ChartPush::AwaitPush));
    assert_eq!(run_args(&a), strings(&["helm", "push", "/tmp/charts/capsule-0.7.0.tgz", "oci://reg.io/fedcore/helm-charts"]));
    let (st, a) = chart_push_step(&c, "/tmp/charts", "oci://reg.io", st, ChartPushEvent::Exited { success: false, stderr: " denied\n".into() });
    assert!(matches!(a, ChartPushAction::Stop));
    match st {
        ChartPush::Finished(Some(f)) => {
            assert_eq!(f.name, "capsule:0.7.0");
            assert_eq!(f.error, Some("denied".to_string()));
        }
        _ => panic!("expected a failure"),
    }
}

#[test]
fn chart_push_stops_early_when_nothing_to_do() {
    let c = capsule();
    let (st, a) = chart_push_step(&c, "d", "r", ChartPush::AwaitArchive, ChartPushEvent::ArchiveFound(false));
    assert!(matches!(st, ChartPush::Finished(None)) && matches!(a, ChartPushAction::Stop));
    let (st, _) = chart_push_step(&c, "d", "r", ChartPush::AwaitCheck, ChartPushEvent::Exited { success: true, stderr: String::new() });
    assert!(matches!(st, ChartPush::Finished(None)));
    let (st, _) = chart_push_step(&c, "d", "r", ChartPush::AwaitPush, ChartPushEvent::Exited { success: false, stderr: "already exists".into() });
    assert!(matches!(st, ChartPush::Finished(None)));
    let (st, _) = chart_push_step(&c, "d", "r", ChartPush::AwaitPush, ChartPushEvent::NotRun("no helm".into()));
    assert!(matches!(st, ChartPush::Finished(Some(f)) if f.error == Some("no helm".to_string())));
    let (st, a) = chart_push_step(&c, "d", "r", ChartPush::AwaitPush, ChartPushEvent::ArchiveFound(true));
    assert!(matches!(st, ChartPush::AwaitPush) && matches!(a, ChartPushAction::Stop));
}

#[test]
fn chart_push_messages() {
    assert_eq!(login_failure_message("Helm registry login", "bad creds"), "Helm registry login failed: bad creds");
    assert_eq!(push_charts_verdict(&Vec::new()), Ok(()));
    let fs = vec![TaskFailure::new("a:1".to_string(), "x".to_string()), TaskFailure::new("b:1".to_string(), "y".to_string())];
    assert_eq!(push_charts_verdict(&fs), Err("2 chart pushes failed".to_string()));
}

#[test]
fn helm_search_and_kbld_inspect_commands() {
    let c = chart_search_command("Cert_Manager", "cert-manager");
    assert_eq!(c.program, "helm");
    assert_eq!(c.args, strings(&["search", "repo", "cert-manager/cert-manager", "--versions"]));
    let k = image_inspect_command();
    assert_eq!(k.program, "kbld");
    assert_eq!(k.args, strings(&["inspect", "-f", "-", "--json"]));
    assert_eq!(component_yaml_path("components/capsule"), "platform/components/capsule/component.yaml");
}

fn component_from(repo: &str) -> ComponentInfo {
    ComponentInfo {
        name: "capsule".to_string(),
        chart: "capsule".to_string(),
        repo: repo.to_string(),
        version: "0.1.0".to_string(),
        component_path: "platform/components/capsule".to_string(),
    }
}

#[test]
fn latest_version_search_skips_oci_charts() {
    assert!(searches_latest_version(&component_from("https://charts.example.io")));
    assert!(!searches_latest_version(&component_from("oci://ghcr.io/charts")));
}

#[test]
fn latest_tasks_fetch_then_update() {
    let c = component_from("https://charts.example.io");
    assert!(latest_tasks(&c, &None, true).is_empty());
    let only = latest_tasks(&c, &Some("0.2.0".to_string()), false);
    assert_eq!(only.len(), 1);
    match &only[0] {
        LatestTask::FetchChart(x) => {
            assert_eq!(x.version, "0.2.0");
            assert_eq!(x.name, "capsule");
        }
        _ => panic!("expected a chart fetch"),
    }
    let all = latest_tasks(&c, &Some("0.2.0".to_string()), true);
    assert_eq!(all.len(), 3);
    match &all[1] {
        LatestTask::WriteVersion(p, v) => {
            assert_eq!(p, "platform/components/capsule");
            assert_eq!(v, "0.2.0");
        }
        _ => panic!("expected a version write"),
    }
    match &all[2] {
        LatestTask::CopyDefaults(x) => assert_eq!(x.version, "0.2.0"),
        _ => panic!("expected a values copy"),
    }
}

#[test]
fn latest_task_failures_name_the_step() {
    let c = component_from("https://charts.example.io");
    let all = latest_tasks(&c, &Some("0.2.0".to_string()), true);
    assert_eq!(latest_task_failure("capsule", &all[0], "boom").error, Some("boom".to_string()));
    assert_eq!(latest_task_failure("capsule", &all[1], "boom").error, Some("update failed: boom".to_string()));
    let f = latest_task_failure("capsule", &all[2], "boom");
    assert_eq!(f.name, "capsule");
    assert_eq!(f.error, Some("copy default values failed: boom".to_string()));
}
