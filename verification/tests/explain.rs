use fedcore::commands::explain::{execute, render, Page, PageLine};

fn show(v: &[PageLine]) -> Vec<String> {
    v.iter()
        .map(|l| match l {
            PageLine::Heading(h) => format!("H {}", h),
            PageLine::Blank => "".to_string(),
            PageLine::Text(t) => format!("T {}", t),
        })
        .collect()
}

#[test]
fn explain_without_topic_shows_overview_and_topics() {
    let e = execute(None);
    assert!(e.unknown_topic.is_none());
    assert_eq!(e.pages, vec![Page::Overview, Page::Topics]);
}

#[test]
fn explain_known_topic_shows_its_page() {
    let e = execute(Some("gitops"));
    assert!(e.unknown_topic.is_none());
    assert_eq!(e.pages, vec![Page::Gitops]);
    assert_eq!(execute(Some("build")).pages, vec![Page::Build]);
    assert_eq!(Page::Clusters.file(), "clusters.md");
}

#[test]
fn explain_unknown_topic_lists_topics() {
    let e = execute(Some("Workflow"));
    assert_eq!(e.unknown_topic, Some("Workflow".to_string()));
    assert_eq!(e.pages, vec![Page::Topics]);
}

#[test]
fn render_lays_out_headings_and_blank_lines() {
    let r = render("# Title\nSome text\n\n## Sub\n#NoSpace\n");
    assert_eq!(show(&r), vec!["H Title", "T Some text", "", "T ## Sub", "T #NoSpace", ""]);
    assert_eq!(show(&render("")), vec![""]);
}
