use fedcore::commands::compare::{
    check_targets, compare_files, diff_lines, diff_summary, select_compare_entry, ArtifactFile, DiffTag, FileChange,
};
use fedcore::types::BuildMatrixEntry;

fn file(path: &str, content: &str) -> ArtifactFile {
    ArtifactFile { path: path.to_string(), content: content.to_string() }
}

fn entry(artifact: &str, id: &str) -> BuildMatrixEntry {
    BuildMatrixEntry {
        artifact_path: artifact.to_string(),
        cluster: "c".to_string(),
        cluster_name: "dev".to_string(),
        target_name: format!("{}-dev", id),
        component_id: id.to_string(),
        component_namespace: id.to_string(),
        component_data_values_yaml: String::new(),
        overlays: Vec::new(),
    }
}

fn show(c: &[FileChange]) -> Vec<String> {
    c.iter()
        .map(|x| match x {
            FileChange::Removed(p) => format!("- {}", p),
            FileChange::Added(p) => format!("+ {}", p),
            FileChange::Changed(p) => format!("~ {}", p),
            FileChange::Identical(p) => format!("= {}", p),
        })
        .collect()
}

#[test]
fn target_counts_depend_on_local_build() {
    let one = vec!["capsule".to_string()];
    let two = vec!["a".to_string(), "b".to_string()];
    assert_eq!(check_targets(&two, &None, &None), Ok(()));
    assert_eq!(
        check_targets(&one, &None, &None),
        Err("Provide 2 targets, or 1 target with --artifact/--cluster (got 1)".to_string())
    );
    let a = Some("platform/components/capsule".to_string());
    let c = Some("platform/clusters/dev".to_string());
    assert_eq!(check_targets(&one, &a, &c), Ok(()));
    assert_eq!(
        check_targets(&two, &a, &c),
        Err("Provide exactly 1 target when using --artifact/--cluster (got 2)".to_string())
    );
}

#[test]
fn compare_entry_must_be_unique() {
    let es = vec![entry("c", "one"), entry("k", "k"), entry("c", "two")];
    assert_eq!(
        select_compare_entry(&es, "c", None),
        Err("Multiple instances found for 'c': one, two. Use --id to select one.".to_string())
    );
    assert_eq!(select_compare_entry(&es, "c", Some("two")), Ok(2));
    assert_eq!(select_compare_entry(&es, "k", None), Ok(1));
    assert_eq!(select_compare_entry(&es, "z", None), Err("Component 'z' not found in cluster config".to_string()));
    assert_eq!(select_compare_entry(&es, "c", Some("three")), Err("Component 'c' not found in cluster config".to_string()));
}

#[test]
fn diff_lines_show_unified_hunks() {
    let lines = diff_lines("a\nb\nc\n", "a\nx\nc\n");
    let shown: Vec<(DiffTag, &str)> = lines.iter().map(|(t, s)| (*t, s.as_str())).collect();
    assert_eq!(
        shown,
        vec![
            (DiffTag::Hunk, "@@ -1,3 +1,3 @@"),
            (DiffTag::Equal, "a"),
            (DiffTag::Delete, "b"),
            (DiffTag::Insert, "x"),
            (DiffTag::Equal, "c"),
        ]
    );
    assert!(diff_lines("same\n", "same\n").is_empty());
}

#[test]
fn compare_files_classifies_sorted_union() {
    let left = vec![file("b.yaml", "1"), file("a.yaml", "x"), file("gone.yaml", "")];
    let right = vec![file("a.yaml", "x"), file("b.yaml", "2"), file("new.yaml", "n")];
    let c = compare_files(&left, &right);
    assert_eq!(show(&c), vec!["= a.yaml", "~ b.yaml", "- gone.yaml", "+ new.yaml"]);
    assert_eq!(diff_summary(&c), "1 changed, 1 added, 1 removed, 1 identical");
}

#[test]
fn comparing_an_artifact_with_itself_finds_it_identical() {
    let files = vec![file("platform.yaml", "kind: A\n"), file("x/y.yaml", "b")];
    let c = compare_files(&files, &files);
    assert_eq!(show(&c), vec!["= platform.yaml", "= x/y.yaml"]);
    assert_eq!(diff_summary(&c), "Artifacts are identical");
    assert_eq!(diff_summary(&compare_files(&Vec::new(), &Vec::new())), "Artifacts are identical");
}

#[test]
fn diff_summary_names_only_kinds_that_occur() {
    let c = compare_files(&vec![file("a", "1")], &vec![file("a", "2"), file("b", "")]);
    assert_eq!(diff_summary(&c), "1 changed, 1 added");
}
