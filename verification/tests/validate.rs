use fedcore::commands::validate::{
    build_outcome, check_tools, cluster_outcome, combinations_summary, component_count, discover_all_clusters,
    schema_check_command, tool_version_commands, validate_cluster_schema, validation_verdict, ToolProbe,
};
use fedcore::commands::TaskFailure;
use fedcore::output::Report;
use fedcore::types::BuildMatrixEntry;

fn strings(v: &[&str]) -> Vec<String> {
    v.iter().map(|s| s.to_string()).collect()
}

fn show(r: &[Report]) -> Vec<String> {
    r.iter()
        .map(|x| match x {
            Report::Pass(t) => format!("ok {}", t),
            Report::Fail(t) => format!("fail {}", t),
            Report::Warn(t) => format!("warn {}", t),
            Report::Detail(t) => format!("detail {}", t),
        })
        .collect()
}

fn found(v: &str) -> ToolProbe {
    ToolProbe::Found(v.to_string())
}

fn entry(artifact: &str) -> BuildMatrixEntry {
    BuildMatrixEntry {
        artifact_path: artifact.to_string(),
        cluster: "c".to_string(),
        cluster_name: "c".to_string(),
        target_name: "t".to_string(),
        component_id: "i".to_string(),
        component_namespace: "n".to_string(),
        component_data_values_yaml: String::new(),
        overlays: Vec::new(),
    }
}

fn failures(n: usize) -> Vec<TaskFailure> {
    (0..n).map(|i| TaskFailure::new(format!("t{}", i), "bad".to_string())).collect()
}

#[test]
fn tool_version_commands_ask_each_tool() {
    let c = tool_version_commands();
    assert_eq!(c.len(), 3);
    assert_eq!((c[0].program.as_str(), c[0].args.clone()), ("ytt", strings(&["version"])));
    assert_eq!((c[1].program.as_str(), c[1].args.clone()), ("flux", strings(&["version", "--client"])));
    assert_eq!((c[2].program.as_str(), c[2].args.clone()), ("helm", strings(&["version", "--short"])));
}

#[test]
fn check_tools_reports_versions() {
    let (lines, verdict) = check_tools(&found("ytt version 0.50.0"), &found("flux: v2.3.0\ndistribution: x"), &found("  v3.15.0+g1\n"), true);
    assert_eq!(
        show(&lines),
        strings(&["ok ytt (ytt version 0.50.0)", "ok flux (flux: v2.3.0)", "ok helm (v3.15.0+g1)", "ok kubectl"])
    );
    assert_eq!(verdict, Ok(true));
}

#[test]
fn check_tools_reports_missing_tools() {
    let (lines, verdict) = check_tools(&ToolProbe::Missing, &found(""), &ToolProbe::Missing, false);
    assert_eq!(
        show(&lines),
        strings(&[
            "fail ytt not installed",
            "detail https://carvel.dev/ytt/",
            "ok flux (unknown)",
            "fail helm not installed",
            "detail https://helm.sh/",
            "warn kubectl not installed (required for deploy)",
        ])
    );
    assert_eq!(verdict, Ok(false));
}

#[test]
fn check_tools_stops_at_unreadable_version() {
    let (lines, verdict) = check_tools(&found("1"), &ToolProbe::VersionFailed, &ToolProbe::Missing, true);
    assert_eq!(show(&lines), strings(&["ok ytt (1)"]));
    assert_eq!(verdict, Err("Failed to get version for flux".to_string()));
    let (lines, verdict) = check_tools(&ToolProbe::VersionFailed, &found("1"), &found("1"), true);
    assert!(lines.is_empty());
    assert_eq!(verdict, Err("Failed to get version for ytt".to_string()));
}

#[test]
fn schema_check_reads_schema_as_data_values() {
    let c = schema_check_command();
    assert_eq!(c.program, "ytt");
    assert_eq!(c.args, strings(&["-f", "platform/clusters/schema.yaml", "--data-values-inspect"]));
    let (r, ok) = validate_cluster_schema(false, true);
    assert_eq!((show(&[r]), ok), (strings(&["fail Schema not found: platform/clusters/schema.yaml"]), false));
    let (r, ok) = validate_cluster_schema(true, true);
    assert_eq!((show(&[r]), ok), (strings(&["ok Cluster schema valid"]), true));
    let (r, ok) = validate_cluster_schema(true, false);
    assert_eq!((show(&[r]), ok), (strings(&["fail Cluster schema invalid"]), false));
}

#[test]
fn clusters_are_validated_in_sorted_order() {
    assert_eq!(
        discover_all_clusters(&strings(&["platform/clusters/prod", "platform/clusters/dev"])),
        strings(&["platform/clusters/dev", "platform/clusters/prod"])
    );
}

#[test]
fn component_count_counts_distinct_artifacts() {
    let es = vec![entry("a"), entry("b"), entry("a"), entry("c"), entry("b")];
    assert_eq!(component_count(&es), 3);
    assert_eq!(component_count(&Vec::new()), 0);
    assert!(component_count(&es) <= es.len());
}

#[test]
fn combinations_summary_formula() {
    assert_eq!(combinations_summary(6, 3, 2), "6 combinations (3 components x 2 clusters)");
}

#[test]
fn build_outcome_passes_without_failures() {
    let (lines, ok) = build_outcome(4, &Vec::new());
    assert_eq!(show(&lines), strings(&["ok 4 combinations valid"]));
    assert!(ok);
    let (lines, ok) = build_outcome(0, &Vec::new());
    assert_eq!(show(&lines), strings(&["warn No components tested"]));
    assert!(ok);
}

#[test]
fn build_outcome_lists_at_most_ten_failures() {
    let (lines, ok) = build_outcome(3, &failures(2));
    assert!(!ok);
    assert_eq!(show(&lines), strings(&["fail 2 builds failed, 1 passed", "fail t0: bad", "fail t1: bad"]));
    let (lines, ok) = build_outcome(20, &failures(12));
    assert!(!ok);
    assert_eq!(lines.len(), 12);
    assert_eq!(show(&lines[..1]), strings(&["fail 12 builds failed, 8 passed"]));
    assert_eq!(show(&lines[10..]), strings(&["fail t9: bad", "fail ... and 2 more"]));
    let (lines, _) = build_outcome(10, &failures(10));
    assert_eq!(lines.len(), 11);
}

#[test]
fn cluster_outcome_lists_every_failure() {
    let (lines, ok) = cluster_outcome(2, &Vec::new());
    assert_eq!((show(&lines), ok), (strings(&["ok 2 clusters valid"]), true));
    let (lines, ok) = cluster_outcome(0, &Vec::new());
    assert_eq!((show(&lines), ok), (strings(&["warn No clusters tested"]), true));
    let fs = vec![TaskFailure { name: "dev".to_string(), error: None }, TaskFailure::new("prod".to_string(), "x".to_string())];
    let (lines, ok) = cluster_outcome(3, &fs);
    assert_eq!((show(&lines), ok), (strings(&["fail 2 cluster bootstraps failed", "fail dev", "fail prod: x"]), false));
}

#[test]
fn validation_verdict_needs_every_check() {
    assert_eq!(validation_verdict(true, true, true, true), Ok("All validations passed".to_string()));
    assert_eq!(validation_verdict(true, false, true, true), Err("Validation failed with errors".to_string()));
}
