//! Checks of a platform tree: the tools it needs, the cluster schema, every
//! component built for every cluster, and every cluster's bootstrap.
use vstd::prelude::*;
use crate::commands::{failure_line, push_arg, report_failures, CommandLine, TaskFailure};
use crate::output::{report_views, Report, ReportView};
use crate::paths::CLUSTER_SCHEMA;
use crate::text::{
    append_str, chars_of, decimal, insert_unique_sorted, lemma_str_lt_irreflexive, lines,
    lines_of, push_decimal, sort_strings, sorted, str_lt, str_views, string_of, strictly_sorted,
    trim, trimmed,
};
use crate::types::BuildMatrixEntry;

verus! {

// ───────────────────────────── tools ─────────────────────────────

/// What was found of a tool that validation needs.
pub enum ToolProbe {
    /// Not installed.
    Missing,
    /// Installed; its version command printed this, trimmed.
    Found(String),
    /// Installed, but its version command failed.
    VersionFailed,
}

/// How the version of ytt, flux and helm is asked for, in that order.
pub fn tool_version_commands() -> (c: Vec<CommandLine>)
    ensures
        c@.len() == 3,
        c@[0].program@ == "ytt"@,
        str_views(c@[0].args@) == seq!["version"@],
        c@[1].program@ == "flux"@,
        str_views(c@[1].args@) == seq!["version"@, "--client"@],
        c@[2].program@ == "helm"@,
        str_views(c@[2].args@) == seq!["version"@, "--short"@],
{
    let mut a: Vec<String> = Vec::new();
    push_arg(&mut a, "version");
    let mut b: Vec<String> = Vec::new();
    push_arg(&mut b, "version");
    push_arg(&mut b, "--client");
    let mut h: Vec<String> = Vec::new();
    push_arg(&mut h, "version");
    push_arg(&mut h, "--short");
    let mut c: Vec<CommandLine> = Vec::new();
    c.push(CommandLine { program: String::from_str("ytt"), args: a });
    c.push(CommandLine { program: String::from_str("flux"), args: b });
    c.push(CommandLine { program: String::from_str("helm"), args: h });
    c
}

/// The lines about one tool: its name and shown version when installed, or
/// a failure and where to get it.
pub open spec fn tool_lines(name: Seq<char>, url: Seq<char>, shown: Option<Seq<char>>) -> Seq<ReportView> {
    match shown {
        Some(v) => seq![ReportView::Pass(name + " ("@ + v + ")"@)],
        None => seq![ReportView::Fail(name + " not installed"@), ReportView::Detail(url)],
    }
}

/// The first line of a version text, or `unknown` when it has none.
pub open spec fn first_line_or_unknown(v: Seq<char>) -> Seq<char> {
    if lines(v).len() > 0 {
        lines(v)[0]
    } else {
        "unknown"@
    }
}

/// The error when a tool's version cannot be read.
pub open spec fn version_error(tool: Seq<char>) -> Seq<char> {
    "Failed to get version for "@ + tool
}

/// What is shown of a tool that is not missing: its version text, as `show`
/// presents it.
pub open spec fn shown(p: ToolProbe, show: spec_fn(Seq<char>) -> Seq<char>) -> Option<Seq<char>> {
    match p {
        ToolProbe::Found(v) => Some(show(v@)),
        _ => None,
    }
}

/// The lines and the verdict of the tool check. Checking stops at the first
/// tool whose version cannot be read; kubectl is optional.
pub open spec fn spec_check_tools(ytt: ToolProbe, flux: ToolProbe, helm: ToolProbe, kubectl: bool) -> (
    Seq<ReportView>,
    Result<bool, Seq<char>>,
) {
    let y = tool_lines("ytt"@, "https://carvel.dev/ytt/"@, shown(ytt, |v: Seq<char>| v));
    let f = tool_lines("flux"@, "https://fluxcd.io/"@, shown(flux, |v: Seq<char>| first_line_or_unknown(v)));
    let h = tool_lines("helm"@, "https://helm.sh/"@, shown(helm, |v: Seq<char>| trim(v)));
    let k = if kubectl {
        ReportView::Pass("kubectl"@)
    } else {
        ReportView::Warn("kubectl not installed (required for deploy)"@)
    };
    if ytt is VersionFailed {
        (Seq::empty(), Err(version_error("ytt"@)))
    } else if flux is VersionFailed {
        (y, Err(version_error("flux"@)))
    } else if helm is VersionFailed {
        (y + f, Err(version_error("helm"@)))
    } else {
        (y + f + h.push(k), Ok(!(ytt is Missing) && !(flux is Missing) && !(helm is Missing)))
    }
}

fn version_failure(tool: &str) -> (e: String)
    ensures
        e@ == version_error(tool@),
{
    let mut v: Vec<char> = Vec::new();
    append_str(&mut v, "Failed to get version for ");
    append_str(&mut v, tool);
    string_of(&v)
}

fn push_report(out: &mut Vec<Report>, r: Report)
    ensures
        report_views(final(out)@) == report_views(old(out)@).push(r@),
{
    out.push(r);
    assert(report_views(final(out)@) =~= report_views(old(out)@).push(r@));
}

/// Appends the lines about one tool.
fn push_tool_lines(out: &mut Vec<Report>, name: &str, url: &str, shown_version: Option<String>)
    ensures
        report_views(final(out)@) == report_views(old(out)@) + tool_lines(
            name@,
            url@,
            match shown_version {
                Some(v) => Some(v@),
                None => None,
            },
        ),
{
    match shown_version {
        Some(v) => {
            let mut t: Vec<char> = Vec::new();
            append_str(&mut t, name);
            append_str(&mut t, " (");
            append_str(&mut t, v.as_str());
            append_str(&mut t, ")");
            push_report(out, Report::Pass(string_of(&t)));
        },
        None => {
            let mut t: Vec<char> = Vec::new();
            append_str(&mut t, name);
            append_str(&mut t, " not installed");
            push_report(out, Report::Fail(string_of(&t)));
            push_report(out, Report::Detail(String::from_str(url)));
        },
    }
    assert(report_views(final(out)@) =~= report_views(old(out)@) + tool_lines(
        name@,
        url@,
        match shown_version {
            Some(v) => Some(v@),
            None => None,
        },
    ));
}

/// The first line of a text, or `unknown`.
fn first_line_or_unknown_of(v: &str) -> (r: String)
    ensures
        r@ == first_line_or_unknown(v@),
{
    let ls = lines_of(&chars_of(v));
    if ls.len() > 0 {
        assert(crate::text::views(ls@)[0] == ls@[0]@);
        string_of(&ls[0])
    } else {
        String::from_str("unknown")
    }
}

/// Reports on ytt, flux, helm and kubectl. The verdict is whether the three
/// required tools are installed, or the error of the first whose version
/// could not be read; the lines are those reported up to that point.
pub fn check_tools(ytt: &ToolProbe, flux: &ToolProbe, helm: &ToolProbe, kubectl_found: bool) -> (r: (
    Vec<Report>,
    Result<bool, String>,
))
    ensures
        report_views(r.0@) == spec_check_tools(*ytt, *flux, *helm, kubectl_found).0,
        match r.1 {
            Ok(b) => spec_check_tools(*ytt, *flux, *helm, kubectl_found).1 == Ok::<bool, Seq<char>>(b),
            Err(e) => spec_check_tools(*ytt, *flux, *helm, kubectl_found).1 == Err::<bool, Seq<char>>(e@),
        },
{
    let mut out: Vec<Report> = Vec::new();
    assert(report_views(out@) =~= Seq::<ReportView>::empty());
    let y: Option<String> = match ytt {
        ToolProbe::Missing => None,
        ToolProbe::Found(v) => Some(v.clone()),
        ToolProbe::VersionFailed => {
            return (out, Err(version_failure("ytt")));
        },
    };
    push_tool_lines(&mut out, "ytt", "https://carvel.dev/ytt/", y);
    let f: Option<String> = match flux {
        ToolProbe::Missing => None,
        ToolProbe::Found(v) => Some(first_line_or_unknown_of(v.as_str())),
        ToolProbe::VersionFailed => {
            return (out, Err(version_failure("flux")));
        },
    };
    push_tool_lines(&mut out, "flux", "https://fluxcd.io/", f);
    let h: Option<String> = match helm {
        ToolProbe::Missing => None,
        ToolProbe::Found(v) => Some(trimmed(v.as_str())),
        ToolProbe::VersionFailed => {
            return (out, Err(version_failure("helm")));
        },
    };
    push_tool_lines(&mut out, "helm", "https://helm.sh/", h);
    if kubectl_found {
        push_report(&mut out, Report::Pass(String::from_str("kubectl")));
    } else {
        push_report(&mut out, Report::Warn(String::from_str("kubectl not installed (required for deploy)")));
    }
    let all_ok = !matches!(ytt, ToolProbe::Missing) && !matches!(flux, ToolProbe::Missing) && !matches!(helm, ToolProbe::Missing);
    (out, Ok(all_ok))
}

/// The tool check reaches a verdict exactly when no required tool's version
/// failed to read; the verdict passes exactly when ytt, flux and helm are
/// all installed, so any one of them missing fails it; kubectl never
/// decides it.
pub proof fn law_tool_verdict(ytt: ToolProbe, flux: ToolProbe, helm: ToolProbe, kubectl: bool)
    ensures
        spec_check_tools(ytt, flux, helm, kubectl).1 is Ok <==> (!(ytt is VersionFailed) && !(flux is VersionFailed)
            && !(helm is VersionFailed)),
        spec_check_tools(ytt, flux, helm, kubectl).1 == Ok::<bool, Seq<char>>(true) <==> (ytt is Found && flux is Found
            && helm is Found),
        (!(ytt is VersionFailed) && !(flux is VersionFailed) && !(helm is VersionFailed) && (ytt is Missing
            || flux is Missing || helm is Missing)) ==> spec_check_tools(ytt, flux, helm, kubectl).1 == Ok::<
            bool,
            Seq<char>,
        >(false),
        spec_check_tools(ytt, flux, helm, true).1 == spec_check_tools(ytt, flux, helm, false).1,
{
}

// ───────────────────────────── schema ─────────────────────────────

/// How the cluster schema is checked: ytt reads it as data values.
pub fn schema_check_command() -> (c: CommandLine)
    ensures
        c.program@ == "ytt"@,
        str_views(c.args@) == seq!["-f"@, CLUSTER_SCHEMA@, "--data-values-inspect"@],
{
    let mut args: Vec<String> = Vec::new();
    push_arg(&mut args, "-f");
    push_arg(&mut args, CLUSTER_SCHEMA);
    push_arg(&mut args, "--data-values-inspect");
    CommandLine { program: String::from_str("ytt"), args }
}

/// The line and verdict about the cluster schema: missing, valid when ytt
/// accepted it, invalid otherwise.
pub fn validate_cluster_schema(schema_exists: bool, ytt_accepted: bool) -> (r: (Report, bool))
    ensures
        !schema_exists ==> r.0@ == ReportView::Fail("Schema not found: "@ + CLUSTER_SCHEMA@) && !r.1,
        schema_exists && ytt_accepted ==> r.0@ == ReportView::Pass("Cluster schema valid"@) && r.1,
        schema_exists && !ytt_accepted ==> r.0@ == ReportView::Fail("Cluster schema invalid"@) && !r.1,
{
    if !schema_exists {
        let mut t: Vec<char> = Vec::new();
        append_str(&mut t, "Schema not found: ");
        append_str(&mut t, CLUSTER_SCHEMA);
        (Report::Fail(string_of(&t)), false)
    } else if ytt_accepted {
        (Report::Pass(String::from_str("Cluster schema valid")), true)
    } else {
        (Report::Fail(String::from_str("Cluster schema invalid")), false)
    }
}

// ───────────────────────────── clusters ─────────────────────────────

/// The cluster directories to validate, sorted: those directly under the
/// clusters directory that hold a `cluster.yaml`, as found on disk.
pub fn discover_all_clusters(found: &Vec<String>) -> (r: Vec<String>)
    ensures
        sorted(str_views(r@)),
        str_views(r@).to_multiset() == str_views(found@).to_multiset(),
{
    sort_strings(found)
}

// ───────────────────────────── component builds ─────────────────────────────

/// The component directory of each matrix entry.
pub open spec fn artifact_paths(entries: Seq<BuildMatrixEntry>) -> Seq<Seq<char>> {
    entries.map_values(|e: BuildMatrixEntry| e.artifact_path@)
}

proof fn lemma_strictly_sorted_unique(v: Seq<Seq<char>>)
    requires
        strictly_sorted(v),
    ensures
        v.len() == v.to_set().len(),
{
    assert forall|i: int, j: int| 0 <= i < v.len() && 0 <= j < v.len() && i != j implies v[i] != v[j] by {
        if v[i] == v[j] {
            lemma_str_lt_irreflexive(v[i]);
            if i < j {
                assert(str_lt(v[i], v[j]));
            } else {
                assert(str_lt(v[j], v[i]));
            }
        }
    }
    v.unique_seq_to_set();
}

/// How many distinct components the matrix covers.
pub fn component_count(entries: &Vec<BuildMatrixEntry>) -> (n: usize)
    ensures
        n == artifact_paths(entries@).to_set().len(),
{
    broadcast use vstd::seq_lib::group_seq_properties;
    let mut seen: Vec<String> = Vec::new();
    let mut i: usize = 0;
    assert(str_views(seen@).to_set() =~= artifact_paths(entries@).take(0).to_set());
    while i < entries.len()
        invariant
            i <= entries.len(),
            strictly_sorted(str_views(seen@)),
            str_views(seen@).to_set() == artifact_paths(entries@).take(i as int).to_set(),
        decreases entries.len() - i,
    {
        let p = entries[i].artifact_path.clone();
        let ghost before = artifact_paths(entries@).take(i as int);
        insert_unique_sorted(&mut seen, p);
        proof {
            let after = artifact_paths(entries@).take(i + 1);
            assert(after =~= before.push(entries@[i as int].artifact_path@));
            assert(after.to_set() =~= before.to_set().insert(entries@[i as int].artifact_path@)) by {
                assert forall|x: Seq<char>| after.to_set().contains(x) <==> before.to_set().insert(
                    entries@[i as int].artifact_path@,
                ).contains(x) by {
                    if after.contains(x) {
                        let k = choose|k: int| 0 <= k < after.len() && after[k] == x;
                        if k < before.len() {
                            assert(before[k] == x);
                        }
                    }
                    if before.contains(x) {
                        let k = choose|k: int| 0 <= k < before.len() && before[k] == x;
                        assert(after[k] == x);
                    }
                    if x == entries@[i as int].artifact_path@ {
                        assert(after[i as int] == x);
                    }
                }
            }
        }
        i = i + 1;
    }
    assert(artifact_paths(entries@).take(entries.len() as int) =~= artifact_paths(entries@));
    proof {
        lemma_strictly_sorted_unique(str_views(seen@));
    }
    assert(str_views(seen@).len() == seen@.len());
    seen.len()
}

/// The summary of what is about to be built: `N combinations (C components x K clusters)`.
pub fn combinations_summary(total: usize, components: usize, clusters: usize) -> (s: String)
    ensures
        s@ == decimal(total as nat) + " combinations ("@ + decimal(components as nat) + " components x "@
            + decimal(clusters as nat) + " clusters)"@,
{
    let mut v: Vec<char> = Vec::new();
    push_decimal(&mut v, total as u64);
    append_str(&mut v, " combinations (");
    push_decimal(&mut v, components as u64);
    append_str(&mut v, " components x ");
    push_decimal(&mut v, clusters as u64);
    append_str(&mut v, " clusters)");
    string_of(&v)
}

/// At most this many failed builds are listed one by one.
pub const LISTED_FAILURES: usize = 10;

/// The failure lines of the first `n` failures.
pub open spec fn failure_views(fs: Seq<TaskFailure>, n: int) -> Seq<ReportView> {
    Seq::new(n as nat, |i: int| ReportView::Fail(failure_line(fs[i])))
}

/// The lines and verdict after the builds: all valid, nothing tested, or the
/// count of failures with the first ten listed and how many more there were.
pub open spec fn spec_build_outcome(total: nat, fs: Seq<TaskFailure>) -> (Seq<ReportView>, bool) {
    let failed = fs.len();
    let passed = (total - failed) as nat;
    if failed == 0 && passed > 0 {
        (seq![ReportView::Pass(decimal(passed) + " combinations valid"@)], true)
    } else if failed == 0 {
        (seq![ReportView::Warn("No components tested"@)], true)
    } else {
        let listed = if failed > LISTED_FAILURES { LISTED_FAILURES as int } else { failed as int };
        let more = if failed > LISTED_FAILURES {
            seq![ReportView::Fail("... and "@ + decimal((failed - LISTED_FAILURES) as nat) + " more"@)]
        } else {
            Seq::<ReportView>::empty()
        };
        (
            seq![ReportView::Fail(decimal(failed) + " builds failed, "@ + decimal(passed) + " passed"@)]
                + failure_views(fs, listed) + more,
            false,
        )
    }
}

/// Appends one failure line per failure of `fs[..n]`.
fn push_failure_lines(out: &mut Vec<Report>, fs: &Vec<TaskFailure>, n: usize)
    requires
        n <= fs.len(),
    ensures
        report_views(final(out)@) == report_views(old(out)@) + failure_views(fs@, n as int),
{
    let lines = report_failures(fs);
    let mut i: usize = 0;
    while i < n
        invariant
            i <= n <= fs.len(),
            lines@.len() == fs@.len(),
            forall|k: int| 0 <= k < fs@.len() ==> #[trigger] lines@[k]@ == failure_line(fs@[k]),
            report_views(out@) == report_views(old(out)@) + failure_views(fs@, i as int),
        decreases n - i,
    {
        let line = lines[i].clone();
        push_report(out, Report::Fail(line));
        i = i + 1;
        assert(report_views(out@) =~= report_views(old(out)@) + failure_views(fs@, i as int));
    }
}

/// Reports on the component builds, given how many were run and which failed.
pub fn build_outcome(total: usize, failures: &Vec<TaskFailure>) -> (r: (Vec<Report>, bool))
    requires
        failures.len() <= total,
    ensures
        (report_views(r.0@), r.1) == spec_build_outcome(total as nat, failures@),
{
    let failed = failures.len();
    let passed = total - failed;
    let mut out: Vec<Report> = Vec::new();
    if failed == 0 && passed > 0 {
        let mut t: Vec<char> = Vec::new();
        push_decimal(&mut t, passed as u64);
        append_str(&mut t, " combinations valid");
        push_report(&mut out, Report::Pass(string_of(&t)));
        assert(report_views(out@) =~= spec_build_outcome(total as nat, failures@).0);
        (out, true)
    } else if failed == 0 {
        push_report(&mut out, Report::Warn(String::from_str("No components tested")));
        assert(report_views(out@) =~= spec_build_outcome(total as nat, failures@).0);
        (out, true)
    } else {
        let mut t: Vec<char> = Vec::new();
        push_decimal(&mut t, failed as u64);
        append_str(&mut t, " builds failed, ");
        push_decimal(&mut t, passed as u64);
        append_str(&mut t, " passed");
        push_report(&mut out, Report::Fail(string_of(&t)));
        let listed = if failed > LISTED_FAILURES { LISTED_FAILURES } else { failed };
        push_failure_lines(&mut out, failures, listed);
        if failed > LISTED_FAILURES {
            let mut m: Vec<char> = Vec::new();
            append_str(&mut m, "... and ");
            push_decimal(&mut m, (failed - LISTED_FAILURES) as u64);
            append_str(&mut m, " more");
            push_report(&mut out, Report::Fail(string_of(&m)));
        }
        assert(report_views(out@) =~= spec_build_outcome(total as nat, failures@).0);
        (out, false)
    }
}

// ───────────────────────────── cluster bootstraps ─────────────────────────────

/// The lines and verdict after the cluster bootstraps: all valid, nothing
/// tested, or the count of failures with every failure listed.
pub open spec fn spec_cluster_outcome(total: nat, fs: Seq<TaskFailure>) -> (Seq<ReportView>, bool) {
    let failed = fs.len();
    let passed = (total - failed) as nat;
    if failed == 0 && passed > 0 {
        (seq![ReportView::Pass(decimal(passed) + " clusters valid"@)], true)
    } else if failed == 0 {
        (seq![ReportView::Warn("No clusters tested"@)], true)
    } else {
        (
            seq![ReportView::Fail(decimal(failed) + " cluster bootstraps failed"@)] + failure_views(
                fs,
                failed as int,
            ),
            false,
        )
    }
}

/// Reports on the cluster bootstraps, given how many were run and which failed.
pub fn cluster_outcome(total: usize, failures: &Vec<TaskFailure>) -> (r: (Vec<Report>, bool))
    requires
        failures.len() <= total,
    ensures
        (report_views(r.0@), r.1) == spec_cluster_outcome(total as nat, failures@),
{
    let failed = failures.len();
    let passed = total - failed;
    let mut out: Vec<Report> = Vec::new();
    if failed == 0 && passed > 0 {
        let mut t: Vec<char> = Vec::new();
        push_decimal(&mut t, passed as u64);
        append_str(&mut t, " clusters valid");
        push_report(&mut out, Report::Pass(string_of(&t)));
        assert(report_views(out@) =~= spec_cluster_outcome(total as nat, failures@).0);
        (out, true)
    } else if failed == 0 {
        push_report(&mut out, Report::Warn(String::from_str("No clusters tested")));
        assert(report_views(out@) =~= spec_cluster_outcome(total as nat, failures@).0);
        (out, true)
    } else {
        let mut t: Vec<char> = Vec::new();
        push_decimal(&mut t, failed as u64);
        append_str(&mut t, " cluster bootstraps failed");
        push_report(&mut out, Report::Fail(string_of(&t)));
        push_failure_lines(&mut out, failures, failed);
        assert(report_views(out@) =~= spec_cluster_outcome(total as nat, failures@).0);
        (out, false)
    }
}

/// The final word of a validation run: every check passed, or the error
/// that fails the run.
pub fn validation_verdict(tools_ok: bool, schema_ok: bool, components_ok: bool, clusters_ok: bool) -> (r: Result<String, String>)
    ensures
        tools_ok && schema_ok && components_ok && clusters_ok ==> r is Ok && r->Ok_0@ == "All validations passed"@,
        !(tools_ok && schema_ok && components_ok && clusters_ok) ==> r is Err && r->Err_0@ == "Validation failed with errors"@,
{
    if tools_ok && schema_ok && components_ok && clusters_ok {
        Ok(String::from_str("All validations passed"))
    } else {
        Err(String::from_str("Validation failed with errors"))
    }
}

// ───────────────────────────── laws ─────────────────────────────

/// Each matrix entry counts towards at most one component, and a non-empty
/// matrix covers at least one.
pub proof fn law_component_count_bounded(entries: Seq<BuildMatrixEntry>)
    ensures
        artifact_paths(entries).to_set().len() <= entries.len(),
        entries.len() > 0 ==> artifact_paths(entries).to_set().len() > 0,
{
    artifact_paths(entries).lemma_cardinality_of_set();
    artifact_paths(entries).lemma_cardinality_of_empty_set_is_0();
}

/// After builds were run, the verdict is a pass exactly when none failed,
/// and at most ten failures are listed, followed by a count of the rest.
pub proof fn law_build_outcome(total: nat, fs: Seq<TaskFailure>)
    requires
        total > 0,
        fs.len() <= total,
    ensures
        spec_build_outcome(total, fs).1 <==> fs.len() == 0,
        fs.len() == 0 ==> spec_build_outcome(total, fs).0.len() == 1,
        0 < fs.len() <= LISTED_FAILURES ==> spec_build_outcome(total, fs).0.len() == 1 + fs.len(),
        fs.len() > LISTED_FAILURES ==> spec_build_outcome(total, fs).0.len() == LISTED_FAILURES + 2,
{
}

/// After bootstraps were run, the verdict is a pass exactly when none
/// failed, and every failure is listed.
pub proof fn law_cluster_outcome(total: nat, fs: Seq<TaskFailure>)
    requires
        total > 0,
        fs.len() <= total,
    ensures
        spec_cluster_outcome(total, fs).1 <==> fs.len() == 0,
        fs.len() > 0 ==> spec_cluster_outcome(total, fs).0.len() == 1 + fs.len(),
        forall|i: int| 0 <= i < fs.len() ==> spec_cluster_outcome(total, fs).0[1 + i] == ReportView::Fail(failure_line(#[trigger] fs[i])),
{
}

}
