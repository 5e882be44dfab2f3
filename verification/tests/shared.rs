use fedcore::commands::{
    batch_verdict, cluster_metadata_command, command_failure_message, get_current_context, normalize_path,
    push_file_args, report_failures, resolve_registry_credentials, CredentialError, TaskFailure,
};
use fedcore::helm::{cached_path, chart_pull_command};
use fedcore::json::{array_of, bool_of, field, int_of, member, text_of, text_or, Json};
use fedcore::output::{command_line, item_status, progress_label, Report};
use fedcore::text::{
    chars_of, insert_unique_sorted, join_strings, lines_of, replace_chars, same_chars,
    sort_strings, split_chars, str_less, string_of, trimmed, usize_to_string, words_of,
};
use fedcore::types::{default_flux_namespace, default_true, FluxConfig};

fn strings(v: &[&str]) -> Vec<String> {
    v.iter().map(|s| s.to_string()).collect()
}

fn texts(v: &Vec<Vec<char>>) -> Vec<String> {
    v.iter().map(|c| c.iter().collect()).collect()
}

#[test]
fn trimmed_drops_surrounding_whitespace() {
    assert_eq!(trimmed("  a b \n\t"), "a b");
    assert_eq!(trimmed(" \n "), "");
}

#[test]
fn chars_round_trip_through_string() {
    assert_eq!(string_of(&chars_of("héllo wörld")), "héllo wörld");
    assert_eq!(string_of(&Vec::new()), "");
}

#[test]
fn string_of_appends_each_character() {
    let mut v = chars_of("ab");
    v.push('c');
    v.push('é');
    assert_eq!(string_of(&v), "abcé");
}

#[test]
fn join_strings_places_separator_between_parts() {
    assert_eq!(join_strings(&strings(&["a", "b", "c"]), ", "), "a, b, c");
    assert_eq!(join_strings(&strings(&["solo"]), ", "), "solo");
    assert_eq!(join_strings(&Vec::new(), ", "), "");
}

#[test]
fn sort_strings_orders_and_keeps_repeats() {
    assert_eq!(sort_strings(&strings(&["b", "a", "c", "a"])), strings(&["a", "a", "b", "c"]));
    assert_eq!(sort_strings(&strings(&["ab", "a", "b"])), strings(&["a", "ab", "b"]));
}

#[test]
fn insert_unique_sorted_keeps_order_without_repeats() {
    let mut v = strings(&["a", "c"]);
    insert_unique_sorted(&mut v, "b".to_string());
    assert_eq!(v, strings(&["a", "b", "c"]));
    insert_unique_sorted(&mut v, "a".to_string());
    assert_eq!(v, strings(&["a", "b", "c"]));
    insert_unique_sorted(&mut v, "d".to_string());
    assert_eq!(v, strings(&["a", "b", "c", "d"]));
}

#[test]
fn str_less_is_code_point_order() {
    assert!(str_less(&chars_of("ab"), &chars_of("b")));
    assert!(!str_less(&chars_of("b"), &chars_of("ab")));
    assert!(str_less(&chars_of("a"), &chars_of("ab")));
    assert!(!str_less(&chars_of("a"), &chars_of("a")));
}

#[test]
fn usize_to_string_writes_decimal() {
    assert_eq!(usize_to_string(0), "0");
    assert_eq!(usize_to_string(1234), "1234");
}

#[test]
fn lines_of_follows_str_lines() {
    assert_eq!(texts(&lines_of(&chars_of("a\r\nb\n\nc\n"))), strings(&["a", "b", "", "c"]));
    assert_eq!(texts(&lines_of(&chars_of(""))), Vec::<String>::new());
    assert_eq!(texts(&lines_of(&chars_of("x"))), strings(&["x"]));
}

#[test]
fn split_chars_follows_str_split() {
    assert_eq!(texts(&split_chars(&chars_of("a--b--"), &chars_of("--"))), strings(&["a", "b", ""]));
    assert_eq!(texts(&split_chars(&chars_of("abc"), &chars_of("-"))), strings(&["abc"]));
}

#[test]
fn replace_chars_replaces_every_occurrence() {
    assert_eq!(string_of(&replace_chars(&chars_of("a_b_c"), &chars_of("_"), &chars_of("-"))), "a-b-c");
    assert_eq!(string_of(&replace_chars(&chars_of("aaa"), &chars_of("aa"), &chars_of("b"))), "ba");
}

#[test]
fn words_of_splits_on_whitespace() {
    assert_eq!(texts(&words_of(&chars_of("  a  bc\td "))), strings(&["a", "bc", "d"]));
    assert!(words_of(&chars_of("   ")).is_empty());
}

#[test]
fn same_chars_compares_exactly() {
    assert!(same_chars(&chars_of("abc"), &chars_of("abc")));
    assert!(!same_chars(&chars_of("abc"), &chars_of("abd")));
    assert!(!same_chars(&chars_of("ab"), &chars_of("abc")));
}

fn object() -> Json {
    Json::Object(vec![
        ("name".to_string(), Json::Str("web".to_string())),
        ("count".to_string(), Json::Number(Some(5))),
        ("ok".to_string(), Json::Bool(true)),
        ("items".to_string(), Json::Array(vec![Json::Null, Json::Number(None)])),
        ("name".to_string(), Json::Str("shadowed".to_string())),
    ])
}

#[test]
fn json_field_reads_first_member() {
    let o = object();
    assert_eq!(text_of(field(&o, "name")), Some("web".to_string()));
    assert!(field(&o, "missing").is_none());
    assert!(field(&Json::Null, "name").is_none());
}

#[test]
fn json_readers_take_the_right_kind() {
    let o = object();
    assert_eq!(int_of(member(Some(&o), "count")), Some(5));
    assert_eq!(bool_of(member(Some(&o), "ok")), Some(true));
    assert_eq!(array_of(member(Some(&o), "items")).map(|v| v.len()), Some(2));
    assert_eq!(text_of(member(Some(&o), "count")), None);
    assert_eq!(int_of(member(None, "count")), None);
    assert_eq!(text_or(member(Some(&o), "missing"), "fallback"), "fallback");
    assert_eq!(text_or(member(Some(&o), "name"), "fallback"), "web");
}

#[test]
fn item_status_passes_or_fails() {
    assert!(matches!(item_status(true, "fine"), Report::Pass(t) if t == "fine"));
    assert!(matches!(item_status(false, "broken"), Report::Fail(t) if t == "broken"));
}

#[test]
fn command_line_joins_program_and_arguments() {
    assert_eq!(command_line("helm", &strings(&["pull", "x", "--version", "1"])), "helm pull x --version 1");
    assert_eq!(command_line("kubectl", &Vec::new()), "kubectl");
}

#[test]
fn progress_label_formats_counter() {
    assert_eq!(progress_label(2, 5, "Building web"), "[2/5] Building web...");
}

#[test]
fn cached_path_names_chart_archive() {
    assert_eq!(cached_path("nginx", "1.2.3"), ".helm-cache/nginx-1.2.3.tgz");
}

#[test]
fn chart_pull_command_downloads_into_cache() {
    let c = chart_pull_command("https://charts.example.com/nginx", "1.2.3");
    assert_eq!(c.program, "helm");
    assert_eq!(
        c.args,
        strings(&["pull", "https://charts.example.com/nginx", "--version", "1.2.3", "--destination", ".helm-cache"])
    );
}

#[test]
fn flux_defaults_install_into_flux_system() {
    let f = FluxConfig::default();
    assert!(f.install);
    assert_eq!(f.namespace, "flux-system");
    assert!(f.exclude_kinds.is_empty());
    assert!(default_true());
    assert_eq!(default_flux_namespace(), "flux-system");
}

#[test]
fn normalize_path_turns_backslashes_into_slashes() {
    assert_eq!(normalize_path("platform\\clusters\\dev"), "platform/clusters/dev");
    assert_eq!(normalize_path("already/fine"), "already/fine");
}

#[test]
fn normalize_path_twice_changes_nothing_more() {
    let once = normalize_path("a\\b/c\\\\d");
    assert!(!once.contains('\\'));
    assert_eq!(once.chars().count(), "a\\b/c\\\\d".chars().count());
    assert_eq!(normalize_path(&once), once);
}

#[test]
fn command_failure_message_trims_stderr() {
    assert_eq!(command_failure_message("helm", "  boom \n"), "helm failed: boom");
}

#[test]
fn cluster_metadata_command_inspects_data_values() {
    let c = cluster_metadata_command("platform/clusters/dev/cluster.yaml");
    assert_eq!(c.program, "ytt");
    assert_eq!(
        c.args,
        strings(&["-f", "platform/clusters/dev/cluster.yaml", "--data-values-inspect", "-o", "json"])
    );
}

#[test]
fn current_context_is_trimmed_output() {
    assert_eq!(get_current_context("  kind-dev\n"), "kind-dev");
}

fn some(s: &str) -> Option<String> {
    Some(s.to_string())
}

#[test]
fn credentials_prefer_arguments_over_environment() {
    let c = resolve_registry_credentials(some("arg.io"), some("u"), some("p"), some("env.io"), some("eu"), some("ep"))
        .ok()
        .unwrap();
    assert_eq!((c.url.as_str(), c.username.as_str(), c.password.as_str()), ("arg.io", "u", "p"));
    let c = resolve_registry_credentials(None, None, None, some("env.io"), some("eu"), some("ep")).ok().unwrap();
    assert_eq!((c.url.as_str(), c.username.as_str(), c.password.as_str()), ("env.io", "eu", "ep"));
}

#[test]
fn credentials_report_first_missing_part() {
    let e = resolve_registry_credentials(None, None, None, None, None, None).err().unwrap();
    assert_eq!(e, CredentialError::MissingRegistry);
    assert_eq!(e.message(), "Registry URL required (--registry or OCI_REGISTRY env var)");
    let e = resolve_registry_credentials(some("r"), None, some("p"), None, None, None).err().unwrap();
    assert_eq!(e, CredentialError::MissingUsername);
    assert_eq!(e.message(), "Registry username required (--registry-user or OCI_REGISTRY_USER env var)");
    let e = resolve_registry_credentials(some("r"), some("u"), None, None, None, None).err().unwrap();
    assert_eq!(e, CredentialError::MissingPassword);
    assert_eq!(e.message(), "Registry password required (--registry-pass or OCI_REGISTRY_PASS env var)");
}

#[test]
fn task_failure_new_keeps_error() {
    let f = TaskFailure::new("web-dev".to_string(), "boom".to_string());
    assert_eq!(f.name, "web-dev");
    assert_eq!(f.error, Some("boom".to_string()));
}

#[test]
fn report_failures_writes_one_line_each() {
    let fs = vec![
        TaskFailure::new("a".to_string(), "bad".to_string()),
        TaskFailure { name: "b".to_string(), error: None },
    ];
    assert_eq!(report_failures(&fs), strings(&["a: bad", "b"]));
}

#[test]
fn push_file_args_prefixes_each_path() {
    let mut args = strings(&["--data-values-inspect"]);
    push_file_args(&mut args, &strings(&["a.yaml", "b"]));
    assert_eq!(args, strings(&["--data-values-inspect", "-f", "a.yaml", "-f", "b"]));
}

#[test]
fn batch_verdict_counts_failures() {
    assert_eq!(batch_verdict(&Vec::new(), "chart downloads failed"), Ok(()));
    let fs = vec![TaskFailure::new("a".to_string(), "x".to_string())];
    assert_eq!(batch_verdict(&fs, "image mirrors failed"), Err("1 image mirrors failed".to_string()));
}
