use fedcore::commands::status::{
    component_label, execute, extract_items, kubectl_args, list_args, render_namespaces, render_pods,
    render_resources, render_section, render_workloads, Section, WorkloadKind, LABEL,
};
use fedcore::json::Json;
use fedcore::output::Report;

fn strings(v: &[&str]) -> Vec<String> {
    v.iter().map(|s| s.to_string()).collect()
}

fn s(x: &str) -> Json {
    Json::Str(x.to_string())
}

fn n(x: i64) -> Json {
    Json::Number(Some(x))
}

fn obj(pairs: Vec<(&str, Json)>) -> Json {
    Json::Object(pairs.into_iter().map(|(k, v)| (k.to_string(), v)).collect())
}

fn meta(ns: &str, name: &str) -> (&'static str, Json) {
    ("metadata", obj(vec![("namespace", s(ns)), ("name", s(name))]))
}

fn list(items: Vec<Json>) -> Json {
    obj(vec![("items", Json::Array(items))])
}

fn show(r: &[Report]) -> Vec<String> {
    r.iter()
        .map(|x| match x {
            Report::Pass(t) => format!("ok {}", t),
            Report::Fail(t) => format!("fail {}", t),
            Report::Warn(t) => format!("warn {}", t),
            Report::Detail(t) => format!("detail {}", t),
        })
        .collect()
}

#[test]
fn component_label_selects_one_component() {
    assert_eq!(component_label("capsule"), "fedcore.io/component=capsule");
}

#[test]
fn list_args_use_namespace_or_all() {
    assert_eq!(list_args("pods", LABEL, Some("web")), strings(&["get", "pods", "-l", LABEL, "-o", "json", "-n", "web"]));
    assert_eq!(list_args("pods", "x=y", None), strings(&["get", "pods", "-l", "x=y", "-o", "json", "-A"]));
}

#[test]
fn kubectl_args_put_context_and_timeout_first() {
    assert_eq!(
        kubectl_args("kind-dev", &strings(&["get", "pods"])),
        strings(&["--context", "kind-dev", "--request-timeout=10s", "get", "pods"])
    );
}

#[test]
fn extract_items_warns_when_query_failed_or_empty() {
    assert!(matches!(extract_items(None, "pods"), Err(Report::Warn(t)) if t == "Could not query pods"));
    assert!(matches!(extract_items(Some(&list(vec![])), "pods"), Err(Report::Warn(t)) if t == "None found"));
    assert!(matches!(extract_items(Some(&obj(vec![])), "pods"), Err(Report::Warn(t)) if t == "None found"));
    assert_eq!(extract_items(Some(&list(vec![Json::Null])), "pods").ok().map(|v| v.len()), Some(1));
}

#[test]
fn namespaces_pass_when_active() {
    let j = list(vec![
        obj(vec![meta("", "team-a"), ("status", obj(vec![("phase", s("Active"))]))]),
        obj(vec![meta("", "old"), ("status", obj(vec![("phase", s("Terminating"))]))]),
        obj(vec![]),
    ]);
    assert_eq!(show(&render_namespaces(Some(&j))), strings(&["ok team-a", "fail old", "fail unknown"]));
}

#[test]
fn resources_pass_when_ready_with_detail() {
    let ready = obj(vec![
        meta("flux-system", "capsule"),
        ("spec", obj(vec![("url", s("oci://reg/fedcore/capsule-dev"))])),
        (
            "status",
            obj(vec![
                ("conditions", Json::Array(vec![obj(vec![("type", s("Reconciling")), ("status", s("False"))]), obj(vec![("type", s("Ready")), ("status", s("True"))])])),
                ("artifact", obj(vec![("revision", s("1.0@sha256:abc"))])),
            ]),
        ),
    ]);
    let unknown = obj(vec![meta("flux-system", "kro")]);
    let j = list(vec![ready, unknown]);
    assert_eq!(
        show(&render_resources(Some(&j), "ocirepositories", true)),
        strings(&[
            "ok flux-system/capsule",
            "detail oci://reg/fedcore/capsule-dev @ 1.0@sha256:abc",
            "fail flux-system/kro",
            "detail unknown @ N/A",
        ])
    );
    assert_eq!(show(&render_resources(Some(&j), "kustomizations", false)), strings(&["ok flux-system/capsule", "fail flux-system/kro"]));
}

#[test]
fn workloads_pass_when_all_of_some_are_ready() {
    let j = list(vec![
        obj(vec![meta("web", "api"), ("status", obj(vec![("readyReplicas", n(2)), ("replicas", n(2))]))]),
        obj(vec![meta("web", "worker"), ("status", obj(vec![("readyReplicas", n(1)), ("replicas", n(3))]))]),
        obj(vec![meta("web", "idle"), ("status", obj(vec![]))]),
    ]);
    assert_eq!(
        show(&render_workloads(Some(&j), "deployments", WorkloadKind::ReplicaBased)),
        strings(&["ok web/api (2/2)", "fail web/worker (1/3)", "fail web/idle (0/0)"])
    );
    let ds = list(vec![obj(vec![meta("kube", "agent"), ("status", obj(vec![("numberReady", n(3)), ("desiredNumberScheduled", n(3))]))])]);
    assert_eq!(show(&render_workloads(Some(&ds), "daemonsets", WorkloadKind::DaemonSet)), strings(&["ok kube/agent (3/3)"]));
}

#[test]
fn pods_report_problems_and_restarts() {
    let running = obj(vec![
        meta("web", "api-1"),
        ("status", obj(vec![("phase", s("Running")), ("containerStatuses", Json::Array(vec![obj(vec![("ready", Json::Bool(true)), ("restartCount", n(0))])]))])),
    ]);
    let crashing = obj(vec![
        meta("web", "api-2"),
        (
            "status",
            obj(vec![
                ("phase", s("Running")),
                (
                    "containerStatuses",
                    Json::Array(vec![
                        obj(vec![("ready", Json::Bool(true)), ("restartCount", n(1))]),
                        obj(vec![("ready", Json::Bool(false)), ("restartCount", n(4)), ("state", obj(vec![("waiting", obj(vec![("reason", s("CrashLoopBackOff"))]))]))]),
                    ]),
                ),
            ]),
        ),
    ]);
    let pending = obj(vec![meta("web", "api-3"), ("status", obj(vec![("phase", s("Pending"))]))]);
    let j = list(vec![running, crashing, pending]);
    assert_eq!(
        show(&render_pods(Some(&j))),
        strings(&["ok web/api-1 (Running)", "fail web/api-2 (CrashLoopBackOff, 5 restarts)", "fail web/api-3 (Pending)"])
    );
}

#[test]
fn render_section_dispatches_by_section() {
    let j = list(vec![obj(vec![meta("web", "api"), ("status", obj(vec![("numberReady", n(1)), ("desiredNumberScheduled", n(2))]))])]);
    assert_eq!(show(&render_section(Section::DaemonSets, Some(&j))), strings(&["fail web/api (1/2)"]));
    assert_eq!(show(&render_section(Section::Pods, None)), strings(&["warn Could not query pods"]));
    assert_eq!(show(&render_section(Section::Sources, None)), strings(&["warn Could not query ocirepositories"]));
}

#[test]
fn status_overview_queries_every_section() {
    let plan = execute("kind-dev", None, None);
    assert!(plan.heading.is_none());
    let titles: Vec<&str> = plan.queries.iter().map(|q| q.title.as_str()).collect();
    assert_eq!(
        titles,
        vec!["Namespaces", "OCIRepository Sources", "Kustomizations", "Deployments", "StatefulSets", "DaemonSets", "Pods"]
    );
    assert_eq!(
        plan.queries[0].args,
        strings(&["--context", "kind-dev", "--request-timeout=10s", "get", "namespaces", "-l", LABEL, "-o", "json"])
    );
    assert_eq!(
        plan.queries[1].args,
        strings(&["--context", "kind-dev", "--request-timeout=10s", "get", "ocirepository", "-l", LABEL, "-o", "json", "-A"])
    );
    assert!(plan.queries[0].section == Section::Namespaces);
}

#[test]
fn status_for_component_skips_namespaces() {
    let plan = execute("prod", Some("web"), Some("capsule"));
    assert_eq!(plan.heading, Some("Component: capsule".to_string()));
    let titles: Vec<&str> = plan.queries.iter().map(|q| q.title.as_str()).collect();
    assert_eq!(titles, vec!["OCIRepository", "Kustomization", "Deployments", "StatefulSets", "DaemonSets", "Pods"]);
    assert_eq!(
        plan.queries[5].args,
        strings(&[
            "--context",
            "prod",
            "--request-timeout=10s",
            "get",
            "pods",
            "-l",
            "fedcore.io/component=capsule",
            "-o",
            "json",
            "-n",
            "web",
        ])
    );
}
