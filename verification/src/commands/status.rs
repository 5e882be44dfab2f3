//! The `status` view of a cluster: which kubectl queries are made, and how
//! their JSON answers become report lines.
use vstd::prelude::*;
use crate::commands::{push_arg, push_owned};
use crate::json::{
    array_of, as_array, as_bool, as_i64, as_str, bool_of, get, int_of, member, str_or, text_of,
    text_or, Json,
};
use crate::output::{item_status, report_views, status_view, Report, ReportView};
use crate::text::{
    append_str, chars_of, push_signed, push_signed_wide, same_chars, signed_decimal,
    str_views, string_of,
};

verus! {

/// The label every platform resource carries.
pub const LABEL: &'static str = "app.kubernetes.io/part-of=fedcore";

/// The label of one component's resources.
pub fn component_label(component: &str) -> (l: String)
    ensures
        l@ == "fedcore.io/component="@ + component@,
{
    let mut v: Vec<char> = Vec::new();
    append_str(&mut v, "fedcore.io/component=");
    append_str(&mut v, component);
    string_of(&v)
}

/// The arguments that list labelled resources as JSON, in one namespace or
/// in all of them.
pub fn list_args(resource: &str, label: &str, namespace: Option<&str>) -> (args: Vec<String>)
    ensures
        str_views(args@) == seq!["get"@, resource@, "-l"@, label@, "-o"@, "json"@] + match namespace {
            Some(ns) => seq!["-n"@, ns@],
            None => seq!["-A"@],
        },
{
    let mut args: Vec<String> = Vec::new();
    push_arg(&mut args, "get");
    push_arg(&mut args, resource);
    push_arg(&mut args, "-l");
    push_arg(&mut args, label);
    push_arg(&mut args, "-o");
    push_arg(&mut args, "json");
    match namespace {
        Some(ns) => {
            push_arg(&mut args, "-n");
            push_arg(&mut args, ns);
        },
        None => {
            push_arg(&mut args, "-A");
        },
    }
    args
}

/// kubectl's arguments for a query against a context, with a 10 s timeout.
pub fn kubectl_args(context: &str, args: &Vec<String>) -> (full: Vec<String>)
    ensures
        str_views(full@) == seq!["--context"@, context@, "--request-timeout=10s"@] + str_views(args@),
{
    let mut full: Vec<String> = Vec::new();
    push_arg(&mut full, "--context");
    push_arg(&mut full, context);
    push_arg(&mut full, "--request-timeout=10s");
    let ghost base = str_views(full@);
    let mut i: usize = 0;
    while i < args.len()
        invariant
            i <= args.len(),
            str_views(full@) == base + str_views(args@).take(i as int),
        decreases args.len() - i,
    {
        push_owned(&mut full, args[i].clone());
        assert(str_views(args@).take(i + 1) =~= str_views(args@).take(i as int).push(args@[i as int]@));
        i = i + 1;
    }
    assert(str_views(args@).take(args.len() as int) =~= str_views(args@));
    full
}

// ───────────────────────────── items ─────────────────────────────

/// The listed items, or the warning shown instead: the query failed, or it
/// found nothing.
pub open spec fn spec_items(json: Option<Json>, resource_name: Seq<char>) -> Result<Seq<Json>, Seq<char>> {
    match json {
        None => Err("Could not query "@ + resource_name),
        Some(j) => match as_array(get(j, "items"@)) {
            Some(items) => if items.len() > 0 {
                Ok(items)
            } else {
                Err("None found"@)
            },
            None => Err("None found"@),
        },
    }
}

pub open spec fn opt_json(json: Option<&Json>) -> Option<Json> {
    match json {
        Some(j) => Some(*j),
        None => None,
    }
}

pub fn extract_items<'a>(json: Option<&'a Json>, resource_name: &str) -> (r: Result<&'a Vec<Json>, Report>)
    ensures
        match r {
            Ok(v) => spec_items(opt_json(json), resource_name@) == Ok::<Seq<Json>, Seq<char>>(v@),
            Err(w) => spec_items(opt_json(json), resource_name@) matches Err(t) && w@ == ReportView::Warn(t),
        },
{
    match json {
        None => {
            let mut v: Vec<char> = Vec::new();
            append_str(&mut v, "Could not query ");
            append_str(&mut v, resource_name);
            Err(Report::Warn(string_of(&v)))
        },
        Some(j) => match array_of(member(Some(j), "items")) {
            Some(items) => if items.len() > 0 {
                Ok(items)
            } else {
                Err(Report::Warn(String::from_str("None found")))
            },
            None => Err(Report::Warn(String::from_str("None found"))),
        },
    }
}

/// The lines for a list: the warning alone, or one line per item.
pub open spec fn item_lines(items: Result<Seq<Json>, Seq<char>>, line: spec_fn(Json) -> Seq<ReportView>) -> Seq<ReportView> {
    match items {
        Err(w) => seq![ReportView::Warn(w)],
        Ok(v) => flatten_lines(v, line),
    }
}

pub open spec fn flatten_lines(v: Seq<Json>, line: spec_fn(Json) -> Seq<ReportView>) -> Seq<ReportView>
    decreases v.len(),
{
    if v.len() == 0 {
        Seq::<ReportView>::empty()
    } else {
        flatten_lines(v.drop_last(), line) + line(v.last())
    }
}

pub open spec fn name_of(item: Json) -> Seq<char> {
    str_or(get(get(item, "metadata"@), "name"@), "unknown"@)
}

pub open spec fn namespace_of(item: Json) -> Seq<char> {
    str_or(get(get(item, "metadata"@), "namespace"@), "unknown"@)
}

// ───────────────────────────── namespaces ─────────────────────────────

/// A namespace passes when its phase is `Active`.
pub open spec fn namespace_line(item: Json) -> Seq<ReportView> {
    seq![status_view(str_or(get(get(item, "status"@), "phase"@), "Unknown"@) == "Active"@, name_of(item))]
}

pub fn render_namespaces(json: Option<&Json>) -> (r: Vec<Report>)
    ensures
        report_views(r@) == item_lines(spec_items(opt_json(json), "namespaces"@), |i: Json| namespace_line(i)),
{
    let items = match extract_items(json, "namespaces") {
        Ok(items) => items,
        Err(w) => {
            let mut r: Vec<Report> = Vec::new();
            r.push(w);
            assert(report_views(r@) =~= seq![w@]);
            return r;
        },
    };
    let active = chars_of("Active");
    let mut out: Vec<Report> = Vec::new();
    let mut i: usize = 0;
    while i < items.len()
        invariant
            i <= items.len(),
            active@ == "Active"@,
            report_views(out@) == flatten_lines(items@.take(i as int), |i: Json| namespace_line(i)),
        decreases items.len() - i,
    {
        let item = &items[i];
        let name = text_or(member(member(Some(item), "metadata"), "name"), "unknown");
        let phase = text_or(member(member(Some(item), "status"), "phase"), "Unknown");
        let ok = same_chars(&chars_of(phase.as_str()), &active);
        let line = item_status(ok, name.as_str());
        let ghost before = report_views(out@);
        out.push(line);
        proof {
            let t = items@.take(i + 1);
            assert(t.drop_last() =~= items@.take(i as int));
            assert(t.last() == *item);
            assert(report_views(out@) =~= before + namespace_line(*item));
        }
        i = i + 1;
    }
    assert(items@.take(items.len() as int) =~= items@);
    out
}

// ───────────────────────────── Flux resources ─────────────────────────────

/// The status of the first condition of type `Ready`, if it is a string.
pub open spec fn ready_condition(conds: Seq<Json>) -> Option<Seq<char>>
    decreases conds.len(),
{
    if conds.len() == 0 {
        None
    } else if as_str(get(conds[0], "type"@)) == Some("Ready"@) {
        as_str(get(conds[0], "status"@))
    } else {
        ready_condition(conds.drop_first())
    }
}

pub open spec fn readiness(item: Json) -> Seq<char> {
    match as_array(get(get(item, "status"@), "conditions"@)) {
        Some(conds) => match ready_condition(conds) {
            Some(s) => s,
            None => "Unknown"@,
        },
        None => "Unknown"@,
    }
}

/// A Flux resource passes when its `Ready` condition is `True`; with
/// `show_detail` its source URL and revision follow.
pub open spec fn resource_lines(item: Json, show_detail: bool) -> Seq<ReportView> {
    seq![status_view(readiness(item) == "True"@, namespace_of(item) + "/"@ + name_of(item))] + if show_detail {
        seq![ReportView::Detail(
            str_or(get(get(item, "spec"@), "url"@), "unknown"@) + " @ "@ + str_or(
                get(get(get(item, "status"@), "artifact"@), "revision"@),
                "N/A"@,
            ),
        )]
    } else {
        Seq::<ReportView>::empty()
    }
}

fn ready_of(item: &Json) -> (r: String)
    ensures
        r@ == readiness(*item),
{
    let conds = match array_of(member(member(Some(item), "status"), "conditions")) {
        Some(c) => c,
        None => return String::from_str("Unknown"),
    };
    let ready = chars_of("Ready");
    let mut i: usize = 0;
    assert(conds@.skip(0) =~= conds@);
    while i < conds.len()
        invariant
            i <= conds.len(),
            ready@ == "Ready"@,
            as_array(get(get(*item, "status"@), "conditions"@)) == Some(conds@),
            ready_condition(conds@) == ready_condition(conds@.skip(i as int)),
        decreases conds.len() - i,
    {
        let c = &conds[i];
        let t = text_of(member(Some(c), "type"));
        proof {
            let s = conds@.skip(i as int);
            assert(s[0] == *c);
            assert(s.drop_first() =~= conds@.skip(i + 1));
        }
        let is_ready = match &t {
            Some(x) => same_chars(&chars_of(x.as_str()), &ready),
            None => false,
        };
        if is_ready {
            return match text_of(member(Some(c), "status")) {
                Some(s) => s,
                None => String::from_str("Unknown"),
            };
        }
        i = i + 1;
    }
    assert(conds@.skip(i as int).len() == 0);
    String::from_str("Unknown")
}

/// A Flux resource's readiness is the status of its first condition of
/// type `Ready`, whatever conditions of other types come before or after
/// it; `Unknown` when that status is not a string. Its line passes exactly
/// when that status is `True`.
pub proof fn law_readiness_is_the_ready_condition(item: Json, conds: Seq<Json>, k: int, show_detail: bool)
    requires
        as_array(get(get(item, "status"@), "conditions"@)) == Some(conds),
        0 <= k < conds.len(),
        as_str(get(conds[k], "type"@)) == Some("Ready"@),
        forall|j: int| 0 <= j < k ==> as_str(get(#[trigger] conds[j], "type"@)) != Some("Ready"@),
    ensures
        readiness(item) == str_or(get(conds[k], "status"@), "Unknown"@),
        resource_lines(item, show_detail)[0] is Pass <==> as_str(get(conds[k], "status"@)) == Some("True"@),
{
    lemma_first_ready(conds, k);
    reveal_strlit("Unknown");
    reveal_strlit("True");
    assert("Unknown"@[0] != "True"@[0]);
    let label = namespace_of(item) + "/"@ + name_of(item);
    assert(resource_lines(item, show_detail)[0] == status_view(readiness(item) == "True"@, label));
}

/// A Flux resource without a condition of type `Ready` is of unknown
/// readiness, and its line fails.
pub proof fn law_no_ready_condition_is_unknown(item: Json, show_detail: bool)
    requires
        match as_array(get(get(item, "status"@), "conditions"@)) {
            Some(conds) => forall|j: int| 0 <= j < conds.len() ==> as_str(get(#[trigger] conds[j], "type"@)) != Some("Ready"@),
            None => true,
        },
    ensures
        readiness(item) == "Unknown"@,
        resource_lines(item, show_detail)[0] is Fail,
{
    match as_array(get(get(item, "status"@), "conditions"@)) {
        Some(conds) => lemma_no_ready(conds),
        None => {},
    }
    reveal_strlit("Unknown");
    reveal_strlit("True");
    assert("Unknown"@[0] != "True"@[0]);
    let label = namespace_of(item) + "/"@ + name_of(item);
    assert(resource_lines(item, show_detail)[0] == status_view(readiness(item) == "True"@, label));
}

proof fn lemma_first_ready(conds: Seq<Json>, k: int)
    requires
        0 <= k < conds.len(),
        as_str(get(conds[k], "type"@)) == Some("Ready"@),
        forall|j: int| 0 <= j < k ==> as_str(get(#[trigger] conds[j], "type"@)) != Some("Ready"@),
    ensures
        ready_condition(conds) == as_str(get(conds[k], "status"@)),
    decreases k,
{
    if k > 0 {
        let t = conds.drop_first();
        assert forall|j: int| 0 <= j < k - 1 implies as_str(get(#[trigger] t[j], "type"@)) != Some("Ready"@) by {
            assert(t[j] == conds[j + 1]);
        }
        assert(t[k - 1] == conds[k]);
        assert(as_str(get(conds[0], "type"@)) != Some("Ready"@));
        lemma_first_ready(t, k - 1);
    }
}

proof fn lemma_no_ready(conds: Seq<Json>)
    requires
        forall|j: int| 0 <= j < conds.len() ==> as_str(get(#[trigger] conds[j], "type"@)) != Some("Ready"@),
    ensures
        ready_condition(conds) is None,
    decreases conds.len(),
{
    if conds.len() > 0 {
        let t = conds.drop_first();
        assert forall|j: int| 0 <= j < t.len() implies as_str(get(#[trigger] t[j], "type"@)) != Some("Ready"@) by {
            assert(t[j] == conds[j + 1]);
        }
        assert(as_str(get(conds[0], "type"@)) != Some("Ready"@));
        lemma_no_ready(t);
    }
}

pub fn render_resources(json: Option<&Json>, resource_name: &str, show_detail: bool) -> (r: Vec<Report>)
    ensures
        report_views(r@) == item_lines(spec_items(opt_json(json), resource_name@), |i: Json| resource_lines(i, show_detail)),
{
    let items = match extract_items(json, resource_name) {
        Ok(items) => items,
        Err(w) => {
            let mut r: Vec<Report> = Vec::new();
            r.push(w);
            assert(report_views(r@) =~= seq![w@]);
            return r;
        },
    };
    let truth = chars_of("True");
    let mut out: Vec<Report> = Vec::new();
    let mut i: usize = 0;
    while i < items.len()
        invariant
            i <= items.len(),
            truth@ == "True"@,
            report_views(out@) == flatten_lines(items@.take(i as int), |i: Json| resource_lines(i, show_detail)),
        decreases items.len() - i,
    {
        let item = &items[i];
        let name = text_or(member(member(Some(item), "metadata"), "name"), "unknown");
        let ns = text_or(member(member(Some(item), "metadata"), "namespace"), "unknown");
        let ready = ready_of(item);
        let mut label: Vec<char> = Vec::new();
        append_str(&mut label, ns.as_str());
        append_str(&mut label, "/");
        append_str(&mut label, name.as_str());
        let ghost before = report_views(out@);
        out.push(item_status(same_chars(&chars_of(ready.as_str()), &truth), string_of(&label).as_str()));
        if show_detail {
            let url = text_or(member(member(Some(item), "spec"), "url"), "unknown");
            let rev = text_or(member(member(member(Some(item), "status"), "artifact"), "revision"), "N/A");
            let mut d: Vec<char> = Vec::new();
            append_str(&mut d, url.as_str());
            append_str(&mut d, " @ ");
            append_str(&mut d, rev.as_str());
            out.push(Report::Detail(string_of(&d)));
        }
        proof {
            let t = items@.take(i + 1);
            assert(t.drop_last() =~= items@.take(i as int));
            assert(t.last() == *item);
            assert(report_views(out@) =~= before + resource_lines(*item, show_detail));
        }
        i = i + 1;
    }
    assert(items@.take(items.len() as int) =~= items@);
    out
}

// ───────────────────────────── workloads ─────────────────────────────

/// How a workload's readiness is counted.
#[derive(PartialEq, Eq, Structural, Clone, Copy, Debug)]
pub enum WorkloadKind {
    ReplicaBased,
    DaemonSet,
}

pub open spec fn count_or_zero(j: Json) -> i64 {
    match as_i64(j) {
        Some(n) => n,
        None => 0,
    }
}

/// Ready and desired counts: replicas for deployments and stateful sets,
/// scheduled pods for daemon sets; a missing count is 0.
pub open spec fn workload_counts(item: Json, kind: WorkloadKind) -> (i64, i64) {
    let st = get(item, "status"@);
    match kind {
        WorkloadKind::ReplicaBased => (count_or_zero(get(st, "readyReplicas"@)), count_or_zero(get(st, "replicas"@))),
        WorkloadKind::DaemonSet => (count_or_zero(get(st, "numberReady"@)), count_or_zero(get(st, "desiredNumberScheduled"@))),
    }
}

/// A workload passes when all of a non-zero number of replicas are ready.
pub open spec fn workload_line(item: Json, kind: WorkloadKind) -> Seq<ReportView> {
    let (ready, total) = workload_counts(item, kind);
    seq![status_view(
        ready == total && total > 0,
        namespace_of(item) + "/"@ + name_of(item) + " ("@ + signed_decimal(ready as int) + "/"@
            + signed_decimal(total as int) + ")"@,
    )]
}

pub fn render_workloads(json: Option<&Json>, resource_name: &str, kind: WorkloadKind) -> (r: Vec<Report>)
    ensures
        report_views(r@) == item_lines(spec_items(opt_json(json), resource_name@), |i: Json| workload_line(i, kind)),
{
    let items = match extract_items(json, resource_name) {
        Ok(items) => items,
        Err(w) => {
            let mut r: Vec<Report> = Vec::new();
            r.push(w);
            assert(report_views(r@) =~= seq![w@]);
            return r;
        },
    };
    let mut out: Vec<Report> = Vec::new();
    let mut i: usize = 0;
    while i < items.len()
        invariant
            i <= items.len(),
            report_views(out@) == flatten_lines(items@.take(i as int), |i: Json| workload_line(i, kind)),
        decreases items.len() - i,
    {
        let item = &items[i];
        let name = text_or(member(member(Some(item), "metadata"), "name"), "unknown");
        let ns = text_or(member(member(Some(item), "metadata"), "namespace"), "unknown");
        let st = member(Some(item), "status");
        let (rk, tk) = match kind {
            WorkloadKind::ReplicaBased => ("readyReplicas", "replicas"),
            WorkloadKind::DaemonSet => ("numberReady", "desiredNumberScheduled"),
        };
        let ready = match int_of(member(st, rk)) {
            Some(n) => n,
            None => 0,
        };
        let total = match int_of(member(st, tk)) {
            Some(n) => n,
            None => 0,
        };
        let mut label: Vec<char> = Vec::new();
        append_str(&mut label, ns.as_str());
        append_str(&mut label, "/");
        append_str(&mut label, name.as_str());
        append_str(&mut label, " (");
        push_signed(&mut label, ready);
        append_str(&mut label, "/");
        push_signed(&mut label, total);
        append_str(&mut label, ")");
        let ghost before = report_views(out@);
        out.push(item_status(ready == total && total > 0, string_of(&label).as_str()));
        proof {
            assert(workload_counts(*item, kind) == (ready, total));
            let t = items@.take(i + 1);
            assert(t.drop_last() =~= items@.take(i as int));
            assert(t.last() == *item);
            assert(report_views(out@) =~= before + workload_line(*item, kind));
        }
        i = i + 1;
    }
    assert(items@.take(items.len() as int) =~= items@);
    out
}

// ───────────────────────────── pods ─────────────────────────────

pub open spec fn container_ready(c: Json) -> bool {
    as_bool(get(c, "ready"@)) == Some(true)
}

pub open spec fn all_containers_ready(cs: Seq<Json>) -> bool {
    forall|i: int| 0 <= i < cs.len() ==> container_ready(#[trigger] cs[i])
}

/// The restart counts summed, a missing count being 0.
pub open spec fn restart_total(cs: Seq<Json>) -> int
    decreases cs.len(),
{
    if cs.len() == 0 {
        0
    } else {
        restart_total(cs.drop_last()) + count_or_zero(get(cs.last(), "restartCount"@)) as int
    }
}

/// Why a container is not running: the reason it waits, or else the reason
/// it terminated if it is not ready.
pub open spec fn container_problem(c: Json) -> Option<Seq<char>> {
    let state = get(c, "state"@);
    match as_str(get(get(state, "waiting"@), "reason"@)) {
        Some(w) => Some(w),
        None => match as_str(get(get(state, "terminated"@), "reason"@)) {
            Some(t) => if !container_ready(c) {
                Some(t)
            } else {
                None
            },
            None => None,
        },
    }
}

/// The problem of the first container that has one.
pub open spec fn first_problem(cs: Seq<Json>) -> Option<Seq<char>>
    decreases cs.len(),
{
    if cs.len() == 0 {
        None
    } else {
        match container_problem(cs[0]) {
            Some(p) => Some(p),
            None => first_problem(cs.drop_first()),
        }
    }
}

/// A pod passes when it is running or done, all its containers are ready,
/// and none has a problem; the line names the problem (or else the phase)
/// and the restarts, if any.
pub open spec fn pod_line(item: Json) -> Seq<ReportView> {
    let phase = str_or(get(get(item, "status"@), "phase"@), "Unknown"@);
    let (ready, restarts, problem) = match as_array(get(get(item, "status"@), "containerStatuses"@)) {
        Some(cs) => (all_containers_ready(cs), restart_total(cs), first_problem(cs)),
        None => (false, 0int, None),
    };
    let ok = (phase == "Running"@ || phase == "Succeeded"@) && ready && problem is None;
    let shown = match problem {
        Some(p) => p,
        None => phase,
    };
    let suffix = if restarts > 0 {
        ", "@ + signed_decimal(restarts) + " restarts"@
    } else {
        Seq::<char>::empty()
    };
    seq![status_view(ok, namespace_of(item) + "/"@ + name_of(item) + " ("@ + shown + suffix + ")"@)]
}

fn containers_ready(cs: &Vec<Json>) -> (r: bool)
    ensures
        r == all_containers_ready(cs@),
{
    let mut i: usize = 0;
    while i < cs.len()
        invariant
            i <= cs.len(),
            forall|k: int| 0 <= k < i ==> container_ready(#[trigger] cs@[k]),
        decreases cs.len() - i,
    {
        let ready = match bool_of(member(Some(&cs[i]), "ready")) {
            Some(b) => b,
            None => false,
        };
        if !ready {
            return false;
        }
        i = i + 1;
    }
    true
}

fn containers_restarts(cs: &Vec<Json>) -> (r: i128)
    ensures
        r as int == restart_total(cs@),
        r > i128::MIN,
{
    let mut acc: i128 = 0;
    let mut i: usize = 0;
    while i < cs.len()
        invariant
            i <= cs.len(),
            acc as int == restart_total(cs@.take(i as int)),
            -(i as int) * 0x8000_0000_0000_0000int <= acc as int <= (i as int) * 0x7fff_ffff_ffff_ffffint,
        decreases cs.len() - i,
    {
        let n = match int_of(member(Some(&cs[i]), "restartCount")) {
            Some(n) => n,
            None => 0,
        };
        proof {
            assert(i < usize::MAX);
            assert((i as int) * 0x7fff_ffff_ffff_ffffint + 0x7fff_ffff_ffff_ffffint < 0x7fff_ffff_ffff_ffff_ffff_ffff_ffff_ffffint) by (nonlinear_arith)
                requires i < usize::MAX, usize::MAX <= 0xffff_ffff_ffff_ffff;
            assert(-(i as int) * 0x8000_0000_0000_0000int - 0x8000_0000_0000_0000int > -0x8000_0000_0000_0000_0000_0000_0000_0000int) by (nonlinear_arith)
                requires i < usize::MAX, usize::MAX <= 0xffff_ffff_ffff_ffff;
            let t = cs@.take(i + 1);
            assert(t.drop_last() =~= cs@.take(i as int));
            assert(t.last() == cs@[i as int]);
        }
        acc = acc + n as i128;
        i = i + 1;
        assert(-(i as int) * 0x8000_0000_0000_0000int <= acc as int <= (i as int) * 0x7fff_ffff_ffff_ffffint) by (nonlinear_arith)
            requires
                -((i - 1) as int) * 0x8000_0000_0000_0000int <= (acc - n) as int <= ((i - 1) as int) * 0x7fff_ffff_ffff_ffffint,
                -0x8000_0000_0000_0000int <= n as int <= 0x7fff_ffff_ffff_ffffint;
    }
    assert(cs@.take(cs.len() as int) =~= cs@);
    acc
}

fn containers_problem(cs: &Vec<Json>) -> (r: Option<String>)
    ensures
        match r {
            Some(s) => first_problem(cs@) == Some(s@),
            None => first_problem(cs@) is None,
        },
{
    let mut i: usize = 0;
    assert(cs@.skip(0) =~= cs@);
    while i < cs.len()
        invariant
            i <= cs.len(),
            first_problem(cs@) == first_problem(cs@.skip(i as int)),
        decreases cs.len() - i,
    {
        let c = &cs[i];
        proof {
            let s = cs@.skip(i as int);
            assert(s[0] == *c);
            assert(s.drop_first() =~= cs@.skip(i + 1));
        }
        let state = member(Some(c), "state");
        match text_of(member(member(state, "waiting"), "reason")) {
            Some(w) => return Some(w),
            None => {},
        }
        match text_of(member(member(state, "terminated"), "reason")) {
            Some(t) => {
                let ready = match bool_of(member(Some(c), "ready")) {
                    Some(b) => b,
                    None => false,
                };
                if !ready {
                    return Some(t);
                }
            },
            None => {},
        }
        i = i + 1;
    }
    assert(cs@.skip(i as int).len() == 0);
    None
}

pub fn render_pods(json: Option<&Json>) -> (r: Vec<Report>)
    ensures
        report_views(r@) == item_lines(spec_items(opt_json(json), "pods"@), |i: Json| pod_line(i)),
{
    let items = match extract_items(json, "pods") {
        Ok(items) => items,
        Err(w) => {
            let mut r: Vec<Report> = Vec::new();
            r.push(w);
            assert(report_views(r@) =~= seq![w@]);
            return r;
        },
    };
    let running = chars_of("Running");
    let succeeded = chars_of("Succeeded");
    let mut out: Vec<Report> = Vec::new();
    let mut i: usize = 0;
    while i < items.len()
        invariant
            i <= items.len(),
            running@ == "Running"@,
            succeeded@ == "Succeeded"@,
            report_views(out@) == flatten_lines(items@.take(i as int), |i: Json| pod_line(i)),
        decreases items.len() - i,
    {
        let item = &items[i];
        let name = text_or(member(member(Some(item), "metadata"), "name"), "unknown");
        let ns = text_or(member(member(Some(item), "metadata"), "namespace"), "unknown");
        let phase = text_or(member(member(Some(item), "status"), "phase"), "Unknown");
        let (ready, restarts, problem) = match array_of(member(member(Some(item), "status"), "containerStatuses")) {
            Some(cs) => (containers_ready(cs), containers_restarts(cs), containers_problem(cs)),
            None => (false, 0i128, None),
        };
        let pc = chars_of(phase.as_str());
        let ok = (same_chars(&pc, &running) || same_chars(&pc, &succeeded)) && ready && problem.is_none();
        let mut label: Vec<char> = Vec::new();
        append_str(&mut label, ns.as_str());
        append_str(&mut label, "/");
        append_str(&mut label, name.as_str());
        append_str(&mut label, " (");
        match &problem {
            Some(p) => append_str(&mut label, p.as_str()),
            None => append_str(&mut label, phase.as_str()),
        }
        if restarts > 0 {
            append_str(&mut label, ", ");
            push_signed_wide(&mut label, restarts);
            append_str(&mut label, " restarts");
        }
        append_str(&mut label, ")");
        let ghost before = report_views(out@);
        let line = item_status(ok, string_of(&label).as_str());
        proof {
            let sphase = str_or(get(get(*item, "status"@), "phase"@), "Unknown"@);
            assert(phase@ == sphase);
            let (sready, srestarts, sproblem) = match as_array(get(get(*item, "status"@), "containerStatuses"@)) {
                Some(cs) => (all_containers_ready(cs), restart_total(cs), first_problem(cs)),
                None => (false, 0int, None),
            };
            assert(ready == sready);
            assert(restarts as int == srestarts);
            assert(problem is None <==> sproblem is None);
            assert(problem is Some ==> sproblem == Some(problem->0@));
            let sok = (sphase == "Running"@ || sphase == "Succeeded"@) && sready && sproblem is None;
            assert(ok == sok);
            let shown = match sproblem { Some(p) => p, None => sphase };
            let suffix = if srestarts > 0 { ", "@ + signed_decimal(srestarts) + " restarts"@ } else { Seq::<char>::empty() };
            assert(label@ =~= namespace_of(*item) + "/"@ + name_of(*item) + " ("@ + shown + suffix + ")"@);
            assert(pod_line(*item) == seq![status_view(sok, label@)]);
        }
        out.push(line);
        proof {
            let t = items@.take(i + 1);
            assert(t.drop_last() =~= items@.take(i as int));
            assert(t.last() == *item);
            assert(report_views(out@) =~= before + pod_line(*item));
        }
        i = i + 1;
    }
    assert(items@.take(items.len() as int) =~= items@);
    out
}

// ───────────────────────────── the view as a whole ─────────────────────────────

/// The parts of a status view, each answered by one kubectl query.
#[derive(PartialEq, Eq, Structural, Clone, Copy)]
pub enum Section {
    Namespaces,
    Sources,
    Kustomizations,
    Deployments,
    StatefulSets,
    DaemonSets,
    Pods,
}

/// The kubectl resource each section lists.
pub open spec fn section_resource(s: Section) -> Seq<char> {
    match s {
        Section::Namespaces => "namespaces"@,
        Section::Sources => "ocirepository"@,
        Section::Kustomizations => "kustomization"@,
        Section::Deployments => "deployments"@,
        Section::StatefulSets => "statefulsets"@,
        Section::DaemonSets => "daemonsets"@,
        Section::Pods => "pods"@,
    }
}

fn resource_of(s: Section) -> (r: &'static str)
    ensures
        r@ == section_resource(s),
{
    match s {
        Section::Namespaces => "namespaces",
        Section::Sources => "ocirepository",
        Section::Kustomizations => "kustomization",
        Section::Deployments => "deployments",
        Section::StatefulSets => "statefulsets",
        Section::DaemonSets => "daemonsets",
        Section::Pods => "pods",
    }
}

/// A section's title: in the cluster overview, or under one component.
pub open spec fn section_title(s: Section, for_component: bool) -> Seq<char> {
    match s {
        Section::Namespaces => "Namespaces"@,
        Section::Sources => if for_component { "OCIRepository"@ } else { "OCIRepository Sources"@ },
        Section::Kustomizations => if for_component { "Kustomization"@ } else { "Kustomizations"@ },
        Section::Deployments => "Deployments"@,
        Section::StatefulSets => "StatefulSets"@,
        Section::DaemonSets => "DaemonSets"@,
        Section::Pods => "Pods"@,
    }
}

fn title_of(s: Section, for_component: bool) -> (t: &'static str)
    ensures
        t@ == section_title(s, for_component),
{
    match s {
        Section::Namespaces => "Namespaces",
        Section::Sources => if for_component { "OCIRepository" } else { "OCIRepository Sources" },
        Section::Kustomizations => if for_component { "Kustomization" } else { "Kustomizations" },
        Section::Deployments => "Deployments",
        Section::StatefulSets => "StatefulSets",
        Section::DaemonSets => "DaemonSets",
        Section::Pods => "Pods",
    }
}

/// The query of a section: namespaces are listed cluster-wide, everything
/// else in the namespace asked for, or in all.
pub open spec fn section_args(s: Section, label: Seq<char>, namespace: Option<Seq<char>>) -> Seq<Seq<char>> {
    if s == Section::Namespaces {
        seq!["get"@, "namespaces"@, "-l"@, label, "-o"@, "json"@]
    } else {
        seq!["get"@, section_resource(s), "-l"@, label, "-o"@, "json"@] + match namespace {
            Some(ns) => seq!["-n"@, ns],
            None => seq!["-A"@],
        }
    }
}

/// The report lines of a section, from the JSON its query returned (none
/// when the query failed).
pub open spec fn section_lines(s: Section, json: Option<Json>) -> Seq<ReportView> {
    match s {
        Section::Namespaces => item_lines(spec_items(json, "namespaces"@), |i: Json| namespace_line(i)),
        Section::Sources => item_lines(spec_items(json, "ocirepositories"@), |i: Json| resource_lines(i, true)),
        Section::Kustomizations => item_lines(spec_items(json, "kustomizations"@), |i: Json| resource_lines(i, false)),
        Section::Deployments => item_lines(
            spec_items(json, "deployments"@),
            |i: Json| workload_line(i, WorkloadKind::ReplicaBased),
        ),
        Section::StatefulSets => item_lines(
            spec_items(json, "statefulsets"@),
            |i: Json| workload_line(i, WorkloadKind::ReplicaBased),
        ),
        Section::DaemonSets => item_lines(
            spec_items(json, "daemonsets"@),
            |i: Json| workload_line(i, WorkloadKind::DaemonSet),
        ),
        Section::Pods => item_lines(spec_items(json, "pods"@), |i: Json| pod_line(i)),
    }
}

/// Renders a section from the answer to its query.
pub fn render_section(s: Section, json: Option<&Json>) -> (r: Vec<Report>)
    ensures
        report_views(r@) == section_lines(s, opt_json(json)),
{
    match s {
        Section::Namespaces => render_namespaces(json),
        Section::Sources => render_resources(json, "ocirepositories", true),
        Section::Kustomizations => render_resources(json, "kustomizations", false),
        Section::Deployments => render_workloads(json, "deployments", WorkloadKind::ReplicaBased),
        Section::StatefulSets => render_workloads(json, "statefulsets", WorkloadKind::ReplicaBased),
        Section::DaemonSets => render_workloads(json, "daemonsets", WorkloadKind::DaemonSet),
        Section::Pods => render_pods(json),
    }
}

/// One query of the status view: its section, its title, and kubectl's
/// arguments.
pub struct StatusQuery {
    pub section: Section,
    pub title: String,
    pub args: Vec<String>,
}

/// The status view of a cluster: under a heading when it is about one
/// component, the sections in order.
pub struct StatusPlan {
    pub heading: Option<String>,
    pub queries: Vec<StatusQuery>,
}

/// The sections shown: all of them for the cluster, all but the namespaces
/// for a component.
pub open spec fn status_sections(for_component: bool) -> Seq<Section> {
    let rest = seq![
        Section::Sources,
        Section::Kustomizations,
        Section::Deployments,
        Section::StatefulSets,
        Section::DaemonSets,
        Section::Pods,
    ];
    if for_component {
        rest
    } else {
        seq![Section::Namespaces] + rest
    }
}

/// A planned query as values.
pub open spec fn query_view(q: StatusQuery) -> (Section, Seq<char>, Seq<Seq<char>>) {
    (q.section, q.title@, str_views(q.args@))
}

/// The query of a section against a context.
pub open spec fn planned_query(
    s: Section,
    context: Seq<char>,
    label: Seq<char>,
    namespace: Option<Seq<char>>,
    for_component: bool,
) -> (Section, Seq<char>, Seq<Seq<char>>) {
    (s, section_title(s, for_component), seq!["--context"@, context, "--request-timeout=10s"@] + section_args(s, label, namespace))
}

fn plan_query(s: Section, context: &str, label: &str, namespace: Option<&str>, for_component: bool) -> (q: StatusQuery)
    ensures
        query_view(q) == planned_query(
            s,
            context@,
            label@,
            match namespace {
                Some(n) => Some(n@),
                None => None,
            },
            for_component,
        ),
{
    let args = if s == Section::Namespaces {
        let mut a: Vec<String> = Vec::new();
        push_arg(&mut a, "get");
        push_arg(&mut a, "namespaces");
        push_arg(&mut a, "-l");
        push_arg(&mut a, label);
        push_arg(&mut a, "-o");
        push_arg(&mut a, "json");
        a
    } else {
        list_args(resource_of(s), label, namespace)
    };
    StatusQuery { section: s, title: String::from_str(title_of(s, for_component)), args: kubectl_args(context, &args) }
}

/// Plans the status view of a cluster, reached through a kubectl context:
/// an overview of the platform's resources, or those of one component.
pub fn execute(context: &str, namespace: Option<&str>, component: Option<&str>) -> (plan: StatusPlan)
    ensures
        match component {
            Some(c) => plan.heading matches Some(h) && h@ == "Component: "@ + c@,
            None => plan.heading is None,
        },
        plan.queries@.len() == status_sections(component is Some).len(),
        forall|i: int| 0 <= i < plan.queries@.len() ==> query_view(#[trigger] plan.queries@[i]) == planned_query(
            status_sections(component is Some)[i],
            context@,
            match component {
                Some(c) => "fedcore.io/component="@ + c@,
                None => LABEL@,
            },
            match namespace {
                Some(n) => Some(n@),
                None => None,
            },
            component is Some,
        ),
{
    let for_component = component.is_some();
    let (heading, label) = match component {
        Some(c) => {
            let mut h: Vec<char> = Vec::new();
            append_str(&mut h, "Component: ");
            append_str(&mut h, c);
            (Some(string_of(&h)), component_label(c))
        },
        None => (None, String::from_str(LABEL)),
    };
    let mut sections: Vec<Section> = Vec::new();
    if !for_component {
        sections.push(Section::Namespaces);
    }
    sections.push(Section::Sources);
    sections.push(Section::Kustomizations);
    sections.push(Section::Deployments);
    sections.push(Section::StatefulSets);
    sections.push(Section::DaemonSets);
    sections.push(Section::Pods);
    assert(sections@ =~= status_sections(for_component));
    let ghost nsv: Option<Seq<char>> = match namespace {
        Some(n) => Some(n@),
        None => None,
    };
    let mut queries: Vec<StatusQuery> = Vec::new();
    let mut i: usize = 0;
    while i < sections.len()
        invariant
            i <= sections.len(),
            sections@ == status_sections(for_component),
            nsv == match namespace {
                Some(n) => Some(n@),
                None => None,
            },
            queries@.len() == i,
            forall|k: int| 0 <= k < i ==> query_view(#[trigger] queries@[k]) == planned_query(
                sections@[k],
                context@,
                label@,
                nsv,
                for_component,
            ),
        decreases sections.len() - i,
    {
        let q = plan_query(sections[i], context, label.as_str(), namespace, for_component);
        queries.push(q);
        i = i + 1;
    }
    StatusPlan { heading, queries }
}

}
