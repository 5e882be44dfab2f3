//! Managing the Helm charts of the components: which components a run
//! covers, what their charts are, how new versions are found and recorded,
//! and how charts are pushed.
use vstd::prelude::*;
use crate::commands::{push_arg, push_owned, CommandLine};
use crate::commands::TaskFailure;
use crate::json::{array_of, as_array, as_str, get, member, str_or, text_of, text_or, Json};
use crate::text::{
    append_chars, append_str, chars_of, contains, ends_with, has_prefix, has_substring,
    has_suffix, join_with, lines, lines_of, replace_all, replace_chars, repeated_prefix_end,
    same_chars, slice_of, split, split_chars, starts_with, str_views, string_of, strip_bounds,
    strip_repeated, strip_trail, trim, views, words, words_of, CharClass,
};

verus! {

/// A component that installs a Helm chart.
pub struct ComponentInfo {
    pub name: String,
    pub chart: String,
    pub repo: String,
    pub version: String,
    pub component_path: String,
}

/// The command-line options of `helm-manage`.
pub struct HelmManageArgs {
    pub artifact: String,
    pub dir: String,
    pub latest: bool,
    pub update: bool,
    pub push: bool,
    pub mirror_images: bool,
    pub registry: Option<String>,
    pub registry_user: Option<String>,
    pub registry_pass: Option<String>,
}

// ───────────────────────────── repository names ─────────────────────────────

/// What `str::to_lowercase` returns for a string.
pub uninterp spec fn spec_to_lowercase(s: Seq<char>) -> Seq<char>;

/// `str::to_lowercase`: the Unicode lowercase of the text. The result is
/// named, not spelled out: Unicode case mapping is not restated here.
#[verifier::external_body]
fn to_lowercase(s: &str) -> (r: String)
    ensures
        r@ == spec_to_lowercase(s@),
{
    s.to_lowercase()
}

/// Underscores turned into dashes.
pub fn dash_separated(lowercase: &str) -> (r: String)
    ensures
        r@ == replace_all(lowercase@, "_"@, "-"@),
{
    let v = chars_of(lowercase);
    proof {
        reveal_strlit("_");
    }
    let r = replace_chars(&v, &chars_of("_"), &chars_of("-"));
    proof {
        reveal_strlit("_");
    }
    string_of(&r)
}

/// The name a chart repository is added under: the component name in
/// lowercase, with dashes for underscores.
pub fn get_repo_name(name: &str) -> (r: String)
    ensures
        r@ == replace_all(spec_to_lowercase(name@), "_"@, "-"@),
{
    let lower = to_lowercase(name);
    dash_separated(lower.as_str())
}

/// No underscore survives the replacement by dashes.
pub proof fn law_repo_name_has_no_underscore(s: Seq<char>)
    ensures
        !replace_all(s, "_"@, "-"@).contains('_'),
    decreases s.len(),
{
    reveal_strlit("_");
    reveal_strlit("-");
    let r = replace_all(s, "_"@, "-"@);
    if s.len() >= 1 {
        law_repo_name_has_no_underscore(s.skip(1));
        law_repo_name_has_no_underscore(s.drop_first());
        assert(s.skip(1) =~= s.drop_first());
        let tail = replace_all(s.drop_first(), "_"@, "-"@);
        if s.take(1) == "_"@ {
            assert(r == "-"@ + tail);
            if r.contains('_') {
                let k = choose|k: int| 0 <= k < r.len() && r[k] == '_';
                if k > 0 {
                    assert(tail[k - 1] == '_');
                }
            }
        } else {
            assert(s[0] != '_') by {
                if s[0] == '_' {
                    assert(s.take(1) =~= "_"@);
                }
            }
            assert(r == seq![s[0]] + tail);
            if r.contains('_') {
                let k = choose|k: int| 0 <= k < r.len() && r[k] == '_';
                if k > 0 {
                    assert(tail[k - 1] == '_');
                }
            }
        }
    }
}

impl ComponentInfo {
    /// The chart reference helm pulls: an OCI repository plus the chart, or
    /// the chart under the repository's added name.
    pub fn chart_ref(&self) -> (r: String)
        ensures
            starts_with(self.repo@, "oci://"@) ==> r@ == self.repo@ + "/"@ + self.chart@,
            !starts_with(self.repo@, "oci://"@) ==> r@ == replace_all(spec_to_lowercase(self.name@), "_"@, "-"@) + "/"@ + self.chart@,
    {
        let mut v: Vec<char> = Vec::new();
        if has_prefix(&chars_of(self.repo.as_str()), &chars_of("oci://")) {
            append_str(&mut v, self.repo.as_str());
        } else {
            let rn = get_repo_name(self.name.as_str());
            append_str(&mut v, rn.as_str());
        }
        append_str(&mut v, "/");
        append_str(&mut v, self.chart.as_str());
        string_of(&v)
    }
}

// ───────────────────────────── discovery ─────────────────────────────

/// The chart a component definition names, when it names a component, a
/// chart and a source repository; its version may be empty. The component
/// lives in `platform/components/<dir_name>`, recorded as
/// `components/<dir_name>`.
pub open spec fn spec_component_info(dir_name: Seq<char>, data: Json) -> Option<(Seq<char>, Seq<char>, Seq<char>, Seq<char>, Seq<char>)> {
    let name = str_or(get(data, "name"@), ""@);
    let chart = str_or(get(get(data, "helm"@), "chart"@), ""@);
    let repo = str_or(get(get(data, "helm"@), "sourceRepo"@), ""@);
    let version = str_or(get(get(data, "helm"@), "version"@), ""@);
    if name.len() == 0 || chart.len() == 0 || repo.len() == 0 {
        None
    } else {
        Some((name, chart, repo, version, "components/"@ + dir_name))
    }
}

pub fn component_info(dir_name: &str, data: &Json) -> (r: Option<ComponentInfo>)
    ensures
        match r {
            Some(c) => spec_component_info(dir_name@, *data) == Some((c.name@, c.chart@, c.repo@, c.version@, c.component_path@)),
            None => spec_component_info(dir_name@, *data) is None,
        },
{
    let name = text_or(member(Some(data), "name"), "");
    let helm = member(Some(data), "helm");
    let chart = text_or(member(helm, "chart"), "");
    let repo = text_or(member(helm, "sourceRepo"), "");
    let version = text_or(member(helm, "version"), "");
    proof {
        reveal_strlit("");
    }
    if chars_of(name.as_str()).len() == 0 || chars_of(chart.as_str()).len() == 0 || chars_of(repo.as_str()).len() == 0 {
        return None;
    }
    let mut p: Vec<char> = Vec::new();
    append_str(&mut p, "components/");
    append_str(&mut p, dir_name);
    Some(ComponentInfo { name, chart, repo, version, component_path: string_of(&p) })
}

// ───────────────────────────── which components ─────────────────────────────

/// What `Path::file_name` returns for a path.
pub uninterp spec fn spec_file_name(path: Seq<char>) -> Option<Seq<char>>;

/// `Path::file_name`: the last component of a path, none when the path ends
/// in `..` or has no normal component. The result is named, not spelled out:
/// std's path component rules are not restated here.
#[verifier::external_body]
fn file_name(path: &str) -> (r: Option<String>)
    ensures
        match r {
            Some(n) => spec_file_name(path@) == Some(n@),
            None => spec_file_name(path@) is None,
        },
{
    match std::path::Path::new(path).file_name() {
        Some(n) => Some(n.to_string_lossy().to_string()),
        None => None,
    }
}

/// A requested artifact names a component by its name, or by a path whose
/// last component is the name; trailing slashes do not count.
pub open spec fn requested(name: Seq<char>, request: Seq<char>) -> bool {
    let normalized = strip_trail(trim(request), CharClass::Only('/'));
    let base = match spec_file_name(normalized) {
        Some(b) => b,
        None => ""@,
    };
    name == base || name == normalized
}

/// The components a run covers: all of them for `all`, else those that one of
/// the comma-separated requests names, in discovery order.
pub open spec fn selected_component(c: ComponentInfo, artifact: Seq<char>) -> bool {
    artifact == "all"@ || exists|k: int| 0 <= k < split(artifact, ","@).len() && requested(c.name@, #[trigger] split(artifact, ","@)[k])
}

fn is_requested(name: &Vec<char>, request: &Vec<char>) -> (b: bool)
    ensures
        b == requested(name@, request@),
{
    let (a, e) = strip_bounds(request, 0, request.len(), &CharClass::Space);
    assert(request@.subrange(0, request.len() as int) =~= request@);
    let t = slice_of(request, a, e);
    let d = crate::text::trail_bound(&t, 0, t.len(), &CharClass::Only('/'));
    assert(t@.subrange(0, t.len() as int) =~= t@);
    let normalized = slice_of(&t, 0, d);
    let ns = string_of(&normalized);
    let base = match file_name(ns.as_str()) {
        Some(b) => chars_of(b.as_str()),
        None => {
            proof {
                reveal_strlit("");
            }
            Vec::new()
        },
    };
    assert(t@ == trim(request@));
    assert(normalized@ == strip_trail(trim(request@), CharClass::Only('/')));
    assert(base@ == match spec_file_name(normalized@) { Some(b) => b, None => ""@ });
    same_chars(name, &base) || same_chars(name, &normalized)
}

/// The components named by the `--artifact` option, in discovery order.
pub fn select_components(components: &Vec<ComponentInfo>, artifact: &str) -> (r: Vec<usize>)
    ensures
        forall|k: int| 0 <= k < r@.len() ==> r@[k] < components@.len(),
        forall|k: int, l: int| 0 <= k < l < r@.len() ==> r@[k] < r@[l],
        forall|j: int| 0 <= j < components@.len() ==> (r@.contains(j as usize) <==> selected_component(#[trigger] components@[j], artifact@)),
{
    let a = chars_of(artifact);
    let all = same_chars(&a, &chars_of("all"));
    proof {
        reveal_strlit(",");
    }
    let requests = split_chars(&a, &chars_of(","));
    let mut out: Vec<usize> = Vec::new();
    let mut j: usize = 0;
    while j < components.len()
        invariant
            j <= components.len(),
            a@ == artifact@,
            all == (artifact@ == "all"@),
            views(requests@) == split(artifact@, ","@),
            forall|k: int| 0 <= k < out@.len() ==> out@[k] < j,
            forall|k: int, l: int| 0 <= k < l < out@.len() ==> out@[k] < out@[l],
            forall|m: int| 0 <= m < j ==> (out@.contains(m as usize) <==> selected_component(#[trigger] components@[m], artifact@)),
        decreases components.len() - j,
    {
        let name = chars_of(components[j].name.as_str());
        let mut hit = all;
        let mut k: usize = 0;
        while k < requests.len() && !hit
            invariant
                k <= requests.len(),
                name@ == components@[j as int].name@,
                views(requests@) == split(artifact@, ","@),
                hit ==> selected_component(components@[j as int], artifact@),
                all ==> hit,
                !hit ==> forall|q: int| 0 <= q < k ==> !requested(name@, #[trigger] split(artifact@, ","@)[q]),
            decreases requests.len() - k,
        {
            if is_requested(&name, &requests[k]) {
                assert(views(requests@)[k as int] == requests@[k as int]@);
                hit = true;
            }
            k = k + 1;
        }
        let ghost before = out@;
        if hit {
            out.push(j);
        }
        proof {
            assert(hit == selected_component(components@[j as int], artifact@));
            assert forall|m: int| 0 <= m < j + 1 implies (out@.contains(m as usize) <==> selected_component(#[trigger] components@[m], artifact@)) by {
                if m < j {
                    if before.contains(m as usize) {
                        let q = choose|q: int| 0 <= q < before.len() && before[q] == m as usize;
                        assert(out@[q] == m as usize);
                    }
                    if out@.contains(m as usize) {
                        let q = choose|q: int| 0 <= q < out@.len() && out@[q] == m as usize;
                        if q < before.len() {
                            assert(before[q] == m as usize);
                        }
                    }
                } else {
                    if hit {
                        assert(out@[out@.len() - 1] == j);
                    } else {
                        if out@.contains(m as usize) {
                            let q = choose|q: int| 0 <= q < out@.len() && out@[q] == m as usize;
                            assert(out@[q] < j);
                        }
                    }
                }
            }
        }
        j = j + 1;
    }
    out
}


// ───────────────────────────── versions ─────────────────────────────

/// The newest version a `helm search repo --versions` listing offers: the
/// second column of the first row after the header that is not deprecated
/// and has two columns.
pub open spec fn latest_from_rows(rows: Seq<Seq<char>>) -> Option<Seq<char>>
    decreases rows.len(),
{
    if rows.len() == 0 {
        None
    } else if !contains(rows[0], "DEPRECATED"@) && words(rows[0]).len() >= 2 {
        Some(words(rows[0])[1])
    } else {
        latest_from_rows(rows.drop_first())
    }
}

pub open spec fn spec_latest_version(listing: Seq<char>) -> Option<Seq<char>> {
    if lines(listing).len() == 0 {
        None
    } else {
        latest_from_rows(lines(listing).skip(1))
    }
}

pub fn latest_version(listing: &str) -> (r: Option<String>)
    ensures
        match r {
            Some(v) => spec_latest_version(listing@) == Some(v@),
            None => spec_latest_version(listing@) is None,
        },
{
    let ls = lines_of(&chars_of(listing));
    let deprecated = chars_of("DEPRECATED");
    let mut i: usize = 1;
    if ls.len() == 0 {
        return None;
    }
    assert(views(ls@).skip(1) =~= views(ls@).skip(i as int));
    while i < ls.len()
        invariant
            1 <= i <= ls.len(),
            deprecated@ == "DEPRECATED"@,
            spec_latest_version(listing@) == latest_from_rows(views(ls@).skip(i as int)),
        decreases ls.len() - i,
    {
        let row = &ls[i];
        let ghost rest = views(ls@).skip(i as int);
        proof {
            assert(rest[0] == row@);
            assert(rest.drop_first() =~= views(ls@).skip(i + 1));
        }
        if !has_substring(row, &deprecated) {
            let ws = words_of(row);
            if ws.len() >= 2 {
                assert(views(ws@)[1] == ws@[1]@);
                return Some(string_of(&ws[1]));
            }
        }
        i = i + 1;
    }
    assert(views(ls@).skip(i as int).len() == 0);
    None
}

/// One line of the version update. The state is whether the `helm:` block
/// is being read and whether its version line was already rewritten.
pub open spec fn version_step(in_helm: bool, replaced: bool, line: Seq<char>, version: Seq<char>) -> (bool, bool, Seq<char>) {
    let inside = if line == "helm:"@ || ends_with(line, " helm:"@) {
        true
    } else if in_helm && !starts_with(line, " "@) && line.len() > 0 {
        false
    } else {
        in_helm
    };
    if inside && !replaced && starts_with(line, "  version:"@) {
        (inside, true, "  version: \""@ + version + "\""@)
    } else {
        (inside, replaced, line)
    }
}

pub open spec fn version_scan(ls: Seq<Seq<char>>, version: Seq<char>) -> (bool, bool, Seq<Seq<char>>)
    decreases ls.len(),
{
    if ls.len() == 0 {
        (false, false, Seq::<Seq<char>>::empty())
    } else {
        let prev = version_scan(ls.drop_last(), version);
        let st = version_step(prev.0, prev.1, ls.last(), version);
        (st.0, st.1, prev.2.push(st.2))
    }
}

/// A component definition with the first `  version:` line of its `helm:`
/// block set to the new version; its lines are rejoined by newlines.
pub open spec fn spec_update_component_version(content: Seq<char>, version: Seq<char>) -> Seq<char> {
    join_with(version_scan(lines(content), version).2, "\n"@)
}

pub fn update_component_version(content: &str, new_version: &str) -> (r: String)
    ensures
        r@ == spec_update_component_version(content@, new_version@),
{
    let ls = lines_of(&chars_of(content));
    let helm_line = chars_of("helm:");
    let helm_suffix = chars_of(" helm:");
    let space = chars_of(" ");
    let version_key = chars_of("  version:");
    let mut in_helm = false;
    let mut replaced = false;
    let mut out: Vec<String> = Vec::new();
    let mut i: usize = 0;
    while i < ls.len()
        invariant
            i <= ls.len(),
            helm_line@ == "helm:"@,
            helm_suffix@ == " helm:"@,
            space@ == " "@,
            version_key@ == "  version:"@,
            (in_helm, replaced, str_views(out@)) == version_scan(views(ls@).take(i as int), new_version@),
        decreases ls.len() - i,
    {
        let line = &ls[i];
        if same_chars(line, &helm_line) || has_suffix(line, &helm_suffix) {
            in_helm = true;
        } else if in_helm && !has_prefix(line, &space) && line.len() > 0 {
            in_helm = false;
        }
        let ghost before = str_views(out@);
        if in_helm && !replaced && has_prefix(line, &version_key) {
            replaced = true;
            let mut v: Vec<char> = Vec::new();
            append_str(&mut v, "  version: \"");
            append_str(&mut v, new_version);
            append_str(&mut v, "\"");
            out.push(string_of(&v));
        } else {
            out.push(string_of(line));
        }
        proof {
            let t = views(ls@).take(i + 1);
            assert(t.drop_last() =~= views(ls@).take(i as int));
            assert(t.last() == line@);
            assert(str_views(out@) =~= before.push(version_step(version_scan(t.drop_last(), new_version@).0, version_scan(t.drop_last(), new_version@).1, line@, new_version@).2));
        }
        i = i + 1;
    }
    assert(views(ls@).take(ls.len() as int) =~= views(ls@));
    crate::text::join_strings(&out, "\n")
}

/// The update keeps every line but the rewritten one, and rewrites at most
/// one, a `  version:` line.
pub proof fn law_version_update_touches_one_line(ls: Seq<Seq<char>>, version: Seq<char>)
    ensures
        version_scan(ls, version).2.len() == ls.len(),
        forall|i: int| 0 <= i < ls.len() && #[trigger] version_scan(ls, version).2[i] != ls[i] ==> starts_with(ls[i], "  version:"@)
            && version_scan(ls, version).2[i] == "  version: \""@ + version + "\""@,
        forall|i: int, j: int| 0 <= i < j < ls.len() && #[trigger] version_scan(ls, version).2[i] != ls[i] ==> #[trigger] version_scan(ls, version).2[j] == ls[j],
        !version_scan(ls, version).1 ==> forall|i: int| 0 <= i < ls.len() ==> #[trigger] version_scan(ls, version).2[i] == ls[i],
    decreases ls.len(),
{
    if ls.len() > 0 {
        law_version_update_touches_one_line(ls.drop_last(), version);
        let prev = version_scan(ls.drop_last(), version);
        let cur = version_scan(ls, version);
        assert forall|i: int| 0 <= i < ls.len() - 1 implies cur.2[i] == prev.2[i] && ls[i] == ls.drop_last()[i] by {}
        let n = ls.len() - 1;
        if cur.2[n] != ls[n] {
            assert(!prev.1);
            assert forall|i: int| 0 <= i < n implies #[trigger] cur.2[i] == ls[i] by {
                assert(prev.2[i] == ls.drop_last()[i]);
            }
        }
        assert forall|i: int, j: int| 0 <= i < j < ls.len() && #[trigger] cur.2[i] != ls[i] implies #[trigger] cur.2[j] == ls[j] by {
            if j < n {
                assert(prev.2[i] != ls.drop_last()[i]);
            } else {
                assert(prev.2[i] != ls.drop_last()[i]);
                assert(prev.1) by {
                    if !prev.1 {
                        assert(prev.2[i] == ls.drop_last()[i]);
                    }
                }
            }
        }
    }
}

// ───────────────────────────── chart archives ─────────────────────────────

/// The chart's default values inside its archive: a `values.yaml` directly
/// under the archive's top directory.
pub open spec fn spec_is_chart_values_entry(path: Seq<char>) -> bool {
    ends_with(path, "/values.yaml"@) && path.filter(|c: char| c == '/').len() == 1
}

pub fn is_chart_values_entry(path: &str) -> (b: bool)
    ensures
        b == spec_is_chart_values_entry(path@),
{
    let p = chars_of(path);
    let suffix = chars_of("/values.yaml");
    let mut count: usize = 0;
    let mut i: usize = 0;
    while i < p.len()
        invariant
            i <= p.len(),
            p@ == path@,
            count == p@.take(i as int).filter(|c: char| c == '/').len(),
            count <= i,
        decreases p.len() - i,
    {
        proof {
            let t = p@.take(i + 1);
            assert(t.drop_last() =~= p@.take(i as int));
            reveal(Seq::filter);
        }
        if p[i] == '/' {
            count = count + 1;
        }
        i = i + 1;
    }
    assert(p@.take(p.len() as int) =~= p@);
    has_suffix(&p, &suffix) && count == 1
}

/// Where a component's definition file is.
pub fn component_yaml_path(component_path: &str) -> (p: String)
    ensures
        p@ == "platform/"@ + component_path@ + "/component.yaml"@,
{
    let mut v: Vec<char> = Vec::new();
    append_str(&mut v, "platform/");
    append_str(&mut v, component_path);
    append_str(&mut v, "/component.yaml");
    string_of(&v)
}

/// How the versions of a component's chart are listed, from the chart
/// repository it was added under.
pub fn chart_search_command(name: &str, chart: &str) -> (c: CommandLine)
    ensures
        c.program@ == "helm"@,
        str_views(c.args@) == seq![
            "search"@,
            "repo"@,
            replace_all(spec_to_lowercase(name@), "_"@, "-"@) + "/"@ + chart@,
            "--versions"@,
        ],
{
    let mut args: Vec<String> = Vec::new();
    push_arg(&mut args, "search");
    push_arg(&mut args, "repo");
    let mut p: Vec<char> = Vec::new();
    append_str(&mut p, get_repo_name(name).as_str());
    append_str(&mut p, "/");
    append_str(&mut p, chart);
    push_owned(&mut args, string_of(&p));
    push_arg(&mut args, "--versions");
    CommandLine { program: String::from_str("helm"), args }
}

/// How the images of rendered manifests are listed: kbld reads them on its
/// standard input and answers in JSON.
pub fn image_inspect_command() -> (c: CommandLine)
    ensures
        c.program@ == "kbld"@,
        str_views(c.args@) == seq!["inspect"@, "-f"@, "-"@, "--json"@],
{
    let mut args: Vec<String> = Vec::new();
    push_arg(&mut args, "inspect");
    push_arg(&mut args, "-f");
    push_arg(&mut args, "-");
    push_arg(&mut args, "--json");
    CommandLine { program: String::from_str("kbld"), args }
}

/// Where a chart's default values are copied to for a component.
pub fn default_values_path(component_path: &str) -> (p: String)
    ensures
        p@ == "platform/"@ + component_path@ + "/default-values.yaml"@,
{
    let mut v: Vec<char> = Vec::new();
    append_str(&mut v, "platform/");
    append_str(&mut v, component_path);
    append_str(&mut v, "/default-values.yaml");
    string_of(&v)
}

/// `<dir>/<chart>-<version>.tgz`: where a chart archive is kept for a run.
pub fn chart_archive_path(dir: &str, chart: &str, version: &str) -> (p: String)
    ensures
        p@ == dir@ + "/"@ + crate::helm::spec_chart_file_name(chart@, version@),
{
    let mut v: Vec<char> = Vec::new();
    append_str(&mut v, dir);
    append_str(&mut v, "/");
    append_str(&mut v, chart);
    append_str(&mut v, "-");
    append_str(&mut v, version);
    append_str(&mut v, ".tgz");
    string_of(&v)
}

// ───────────────────────────── chart repositories ─────────────────────────────

pub open spec fn is_http_repo(c: ComponentInfo) -> bool {
    !starts_with(c.repo@, "oci://"@)
}

/// The helm commands that register the HTTP chart repositories: one
/// `repo add` per component served over HTTP, then one `repo update` of
/// them all; nothing when every chart comes from an OCI registry.
pub fn helm_repo_setup(components: &Vec<ComponentInfo>) -> (cmds: Vec<CommandLine>)
    ensures
        (forall|i: int| 0 <= i < components@.len() ==> !is_http_repo(#[trigger] components@[i])) ==> cmds@.len() == 0,
        (exists|i: int| 0 <= i < components@.len() && is_http_repo(#[trigger] components@[i])) ==> {
            &&& cmds@.len() == components@.filter(|c: ComponentInfo| is_http_repo(c)).len() + 1
            &&& forall|k: int| 0 <= k < cmds@.len() ==> (#[trigger] cmds@[k]).program@ == "helm"@
            &&& forall|k: int| 0 <= k < cmds@.len() - 1 ==> str_views((#[trigger] cmds@[k]).args@) == seq![
                "repo"@,
                "add"@,
                replace_all(spec_to_lowercase(components@.filter(|c: ComponentInfo| is_http_repo(c))[k].name@), "_"@, "-"@),
                components@.filter(|c: ComponentInfo| is_http_repo(c))[k].repo@,
            ]
            &&& str_views(cmds@[cmds@.len() - 1].args@) == seq!["repo"@, "update"@] + Seq::new(
                components@.filter(|c: ComponentInfo| is_http_repo(c)).len(),
                |k: int| replace_all(spec_to_lowercase(components@.filter(|c: ComponentInfo| is_http_repo(c))[k].name@), "_"@, "-"@),
            )
        },
{
    let ghost http = components@.filter(|c: ComponentInfo| is_http_repo(c));
    let oci = chars_of("oci://");
    let mut cmds: Vec<CommandLine> = Vec::new();
    let mut update: Vec<String> = Vec::new();
    push_arg(&mut update, "repo");
    push_arg(&mut update, "update");
    let mut i: usize = 0;
    while i < components.len()
        invariant
            i <= components.len(),
            oci@ == "oci://"@,
            http == components@.filter(|c: ComponentInfo| is_http_repo(c)),
            cmds@.len() == components@.take(i as int).filter(|c: ComponentInfo| is_http_repo(c)).len(),
            forall|k: int| 0 <= k < cmds@.len() ==> (#[trigger] cmds@[k]).program@ == "helm"@,
            forall|k: int| 0 <= k < cmds@.len() ==> str_views((#[trigger] cmds@[k]).args@) == seq![
                "repo"@,
                "add"@,
                replace_all(spec_to_lowercase(components@.take(i as int).filter(|c: ComponentInfo| is_http_repo(c))[k].name@), "_"@, "-"@),
                components@.take(i as int).filter(|c: ComponentInfo| is_http_repo(c))[k].repo@,
            ],
            str_views(update@) == seq!["repo"@, "update"@] + Seq::new(
                cmds@.len(),
                |k: int| replace_all(spec_to_lowercase(components@.take(i as int).filter(|c: ComponentInfo| is_http_repo(c))[k].name@), "_"@, "-"@),
            ),
        decreases components.len() - i,
    {
        let c = &components[i];
        let ghost pre = components@.take(i as int).filter(|c: ComponentInfo| is_http_repo(c));
        let ghost t = components@.take(i + 1);
        proof {
            assert(t.drop_last() =~= components@.take(i as int));
            assert(t.last() == *c);
            reveal(Seq::filter);
        }
        if !has_prefix(&chars_of(c.repo.as_str()), &oci) {
            let name = get_repo_name(c.name.as_str());
            let mut args: Vec<String> = Vec::new();
            push_arg(&mut args, "repo");
            push_arg(&mut args, "add");
            push_arg(&mut args, name.as_str());
            push_arg(&mut args, c.repo.as_str());
            let ghost old_update = str_views(update@);
            push_owned(&mut update, name);
            let ghost old_cmds = cmds@;
            cmds.push(CommandLine { program: String::from_str("helm"), args });
            proof {
                let nf = t.filter(|c: ComponentInfo| is_http_repo(c));
                assert(nf == pre.push(*c));
                assert forall|k: int| 0 <= k < cmds@.len() implies str_views((#[trigger] cmds@[k]).args@) == seq![
                    "repo"@,
                    "add"@,
                    replace_all(spec_to_lowercase(nf[k].name@), "_"@, "-"@),
                    nf[k].repo@,
                ] by {
                    if k < old_cmds.len() {
                        assert(cmds@[k] == old_cmds[k]);
                    }
                }
                assert(str_views(update@) =~= seq!["repo"@, "update"@] + Seq::new(
                    cmds@.len(),
                    |k: int| replace_all(spec_to_lowercase(nf[k].name@), "_"@, "-"@),
                ));
            }
        } else {
            proof {
                let nf = t.filter(|c: ComponentInfo| is_http_repo(c));
                assert(nf == pre);
            }
        }
        i = i + 1;
    }
    assert(components@.take(components.len() as int) =~= components@);
    if cmds.len() > 0 {
        proof {
            assert(http.len() > 0);
            components@.lemma_filter_pred(|c: ComponentInfo| is_http_repo(c), 0);
            assert(http.contains(http[0]));
            components@.lemma_filter_contains_rev(|c: ComponentInfo| is_http_repo(c), http[0]);
            let j = choose|j: int| 0 <= j < components@.len() && components@[j] == http[0];
            assert(is_http_repo(components@[j]));
        }
        cmds.push(CommandLine { program: String::from_str("helm"), args: update });
    } else {
        proof {
            assert forall|i: int| 0 <= i < components@.len() implies !is_http_repo(#[trigger] components@[i]) by {
                if is_http_repo(components@[i]) {
                    components@.lemma_filter_contains(|c: ComponentInfo| is_http_repo(c), i);
                }
            }
        }
    }
    proof {
        if exists|i: int| 0 <= i < components@.len() && is_http_repo(#[trigger] components@[i]) {
            let i = choose|i: int| 0 <= i < components@.len() && is_http_repo(#[trigger] components@[i]);
            components@.lemma_filter_contains(|c: ComponentInfo| is_http_repo(c), i);
        }
    }
    cmds
}


// ───────────────────────────── pushing charts ─────────────────────────────

/// A registry URL without its leading `oci://` prefixes.
pub open spec fn registry_host(url: Seq<char>) -> Seq<char> {
    strip_repeated(url, "oci://"@)
}

/// Where a chart is pushed (`oci://<host>/fedcore/helm-charts`) and the
/// reference under which it is then found (`<host>/fedcore/helm-charts/<chart>:<version>`).
pub fn chart_push_target(registry_url: &str, chart: &str, version: &str) -> (r: (String, String))
    ensures
        r.0@ == "oci://"@ + registry_host(registry_url@) + "/fedcore/helm-charts"@,
        r.1@ == registry_host(registry_url@) + "/fedcore/helm-charts/"@ + chart@ + ":"@ + version@,
{
    proof {
        reveal_strlit("oci://");
    }
    let u = chars_of(registry_url);
    let k = repeated_prefix_end(&u, &chars_of("oci://"));
    let host = slice_of(&u, k, u.len());
    assert(host@ =~= u@.skip(k as int));
    let mut a: Vec<char> = Vec::new();
    append_str(&mut a, "oci://");
    append_chars(&mut a, &host);
    append_str(&mut a, "/fedcore/helm-charts");
    let mut b: Vec<char> = Vec::new();
    append_chars(&mut b, &host);
    append_str(&mut b, "/fedcore/helm-charts/");
    append_str(&mut b, chart);
    append_str(&mut b, ":");
    append_str(&mut b, version);
    (string_of(&a), string_of(&b))
}

/// `helm registry login`; the password shows as `***` when `masked`.
pub fn helm_login_command(url: &str, username: &str, password: &str, masked: bool) -> (c: CommandLine)
    ensures
        c.program@ == "helm"@,
        str_views(c.args@) == seq!["registry"@, "login"@, url@, "-u"@, username@, "-p"@, if masked { "***"@ } else { password@ }],
{
    let mut args: Vec<String> = Vec::new();
    push_arg(&mut args, "registry");
    push_arg(&mut args, "login");
    push_arg(&mut args, url);
    push_arg(&mut args, "-u");
    push_arg(&mut args, username);
    push_arg(&mut args, "-p");
    if masked {
        push_arg(&mut args, "***");
    } else {
        push_arg(&mut args, password);
    }
    CommandLine { program: String::from_str("helm"), args }
}

pub fn helm_logout_command(url: &str) -> (c: CommandLine)
    ensures
        c.program@ == "helm"@,
        str_views(c.args@) == seq!["registry"@, "logout"@, url@],
{
    let mut args: Vec<String> = Vec::new();
    push_arg(&mut args, "registry");
    push_arg(&mut args, "logout");
    push_arg(&mut args, url);
    CommandLine { program: String::from_str("helm"), args }
}

/// How a chart already in the registry is recognised: pulling it succeeds.
pub fn chart_exists_command(chart_ref: &str, version: &str) -> (c: CommandLine)
    ensures
        c.program@ == "helm"@,
        str_views(c.args@) == seq!["pull"@, "oci://"@ + chart_ref@, "--version"@, version@, "--destination"@, "/tmp"@],
{
    let mut args: Vec<String> = Vec::new();
    push_arg(&mut args, "pull");
    let mut r: Vec<char> = Vec::new();
    append_str(&mut r, "oci://");
    append_str(&mut r, chart_ref);
    push_owned(&mut args, string_of(&r));
    push_arg(&mut args, "--version");
    push_arg(&mut args, version);
    push_arg(&mut args, "--destination");
    push_arg(&mut args, "/tmp");
    CommandLine { program: String::from_str("helm"), args }
}

pub fn chart_push_command(chart_file: &str, oci_url: &str) -> (c: CommandLine)
    ensures
        c.program@ == "helm"@,
        str_views(c.args@) == seq!["push"@, chart_file@, oci_url@],
{
    let mut args: Vec<String> = Vec::new();
    push_arg(&mut args, "push");
    push_arg(&mut args, chart_file);
    push_arg(&mut args, oci_url);
    CommandLine { program: String::from_str("helm"), args }
}

/// A push that failed counts as a failure unless the registry answered that
/// the chart already exists or that a manifest is unknown.
pub fn push_failure(chart: &str, version: &str, stderr: &str) -> (r: Option<TaskFailure>)
    ensures
        (contains(stderr@, "already exists"@) || contains(stderr@, "manifest unknown"@)) ==> r is None,
        !(contains(stderr@, "already exists"@) || contains(stderr@, "manifest unknown"@)) ==> (r is Some && r->0.name@ == chart@ + ":"@ + version@ && r->0.error == Some(r->0.error->0) && r->0.error is Some && r->0.error->0@ == trim(stderr@)),
{
    let e = chars_of(stderr);
    if has_substring(&e, &chars_of("already exists")) || has_substring(&e, &chars_of("manifest unknown")) {
        return None;
    }
    let mut n: Vec<char> = Vec::new();
    append_str(&mut n, chart);
    append_str(&mut n, ":");
    append_str(&mut n, version);
    let (a, b) = strip_bounds(&e, 0, e.len(), &CharClass::Space);
    assert(e@.subrange(0, e.len() as int) =~= e@);
    Some(TaskFailure::new(string_of(&n), string_of(&slice_of(&e, a, b))))
}

// ───────────────────────────── moving to the latest version ─────────────────────────────

/// Whether the newest version of a component's chart is searched for: only
/// charts served over HTTP are; a chart from an OCI registry keeps its
/// version.
pub fn searches_latest_version(c: &ComponentInfo) -> (b: bool)
    ensures
        b == is_http_repo(*c),
{
    !has_prefix(&chars_of(c.repo.as_str()), &chars_of("oci://"))
}

/// One piece of work in moving a component to the newest version of its
/// chart.
pub enum LatestTask {
    /// Make sure the archive of this chart version is in the output
    /// directory.
    FetchChart(ComponentInfo),
    /// Write this version (second) into the `component.yaml` of the
    /// component at this path (first).
    WriteVersion(String, String),
    /// Copy the default values of this chart version next to the component.
    CopyDefaults(ComponentInfo),
}

/// The component as it is, but at chart version `v`.
pub open spec fn at_version(x: ComponentInfo, c: ComponentInfo, v: Seq<char>) -> bool {
    &&& x.name@ == c.name@
    &&& x.chart@ == c.chart@
    &&& x.repo@ == c.repo@
    &&& x.version@ == v
    &&& x.component_path@ == c.component_path@
}

fn component_at_version(c: &ComponentInfo, version: &String) -> (x: ComponentInfo)
    ensures
        at_version(x, *c, version@),
{
    ComponentInfo {
        name: c.name.clone(),
        chart: c.chart.clone(),
        repo: c.repo.clone(),
        version: version.clone(),
        component_path: c.component_path.clone(),
    }
}

/// The work once the newest version is known: none when there is none;
/// otherwise fetch that version's chart and, when updating, write the
/// version into the component and copy the new default values, in that
/// order.
pub fn latest_tasks(c: &ComponentInfo, latest: &Option<String>, update: bool) -> (r: Vec<LatestTask>)
    ensures
        latest is None ==> r@.len() == 0,
        latest matches Some(v) ==> {
            &&& r@.len() == (if update { 3int } else { 1int })
            &&& r@[0] matches LatestTask::FetchChart(x) && at_version(x, *c, v@)
            &&& update ==> (r@[1] matches LatestTask::WriteVersion(p, w) && p@ == c.component_path@ && w@ == v@)
            &&& update ==> (r@[2] matches LatestTask::CopyDefaults(x) && at_version(x, *c, v@))
        },
{
    let mut r: Vec<LatestTask> = Vec::new();
    match latest {
        None => {},
        Some(v) => {
            r.push(LatestTask::FetchChart(component_at_version(c, v)));
            if update {
                r.push(LatestTask::WriteVersion(c.component_path.clone(), v.clone()));
                r.push(LatestTask::CopyDefaults(component_at_version(c, v)));
            }
        },
    }
    r
}

/// What a failed task's error is reported after.
pub open spec fn latest_task_error_prefix(t: LatestTask) -> Seq<char> {
    match t {
        LatestTask::FetchChart(_) => ""@,
        LatestTask::WriteVersion(_, _) => "update failed: "@,
        LatestTask::CopyDefaults(_) => "copy default values failed: "@,
    }
}

/// The failure reported when a task fails: under the component's name, the
/// error, after `update failed: ` for the version write and
/// `copy default values failed: ` for the values copy.
pub fn latest_task_failure(component_name: &str, task: &LatestTask, error: &str) -> (f: TaskFailure)
    ensures
        f.name@ == component_name@,
        f.error is Some,
        f.error->0@ == latest_task_error_prefix(*task) + error@,
{
    proof {
        reveal_strlit("");
    }
    let mut e: Vec<char> = Vec::new();
    match task {
        LatestTask::FetchChart(_) => {},
        LatestTask::WriteVersion(_, _) => append_str(&mut e, "update failed: "),
        LatestTask::CopyDefaults(_) => append_str(&mut e, "copy default values failed: "),
    }
    append_str(&mut e, error);
    TaskFailure::new(String::from_str(component_name), string_of(&e))
}

// ───────────────────────────── pushing one chart, step by step ─────────────────────────────

/// Where the push of one chart stands.
pub enum ChartPush {
    /// Nothing done yet.
    Start,
    /// Waiting to learn whether the chart archive is on disk.
    AwaitArchive,
    /// Waiting for the pull that tells whether the registry has the chart.
    AwaitCheck,
    /// Waiting for the push.
    AwaitPush,
    /// Finished, with the failure to report, if any.
    Finished(Option<TaskFailure>),
}

/// What the outside answered to the last action.
pub enum ChartPushEvent {
    /// The first step, before any action.
    Begin,
    /// Whether the archive exists.
    ArchiveFound(bool),
    /// A command ran and exited, successfully or with this error output.
    Exited { success: bool, stderr: String },
    /// A command could not be run, for this reason.
    NotRun(String),
}

/// What to do next.
pub enum ChartPushAction {
    /// Find out whether this file exists.
    LookFor(String),
    /// Run this command.
    Run(CommandLine),
    /// Nothing more.
    Stop,
}

/// The state and action after an event, as values: the kind of the next
/// state, the failure when finished, and the action.
pub enum StepView {
    LookFor(Seq<char>),
    Run(Seq<char>, Seq<Seq<char>>),
    Stop,
}

pub open spec fn action_view(a: ChartPushAction) -> StepView {
    match a {
        ChartPushAction::LookFor(p) => StepView::LookFor(p@),
        ChartPushAction::Run(c) => StepView::Run(c.program@, str_views(c.args@)),
        ChartPushAction::Stop => StepView::Stop,
    }
}

/// One step of pushing a chart: the next state and the action to perform.
pub fn chart_push_step(c: &ComponentInfo, dir: &str, registry_url: &str, state: ChartPush, event: ChartPushEvent) -> (r: (
    ChartPush,
    ChartPushAction,
))
    ensures
        match (state, event) {
            (ChartPush::Start, _) => r.0 is AwaitArchive && action_view(r.1) == StepView::LookFor(
                dir@ + "/"@ + crate::helm::spec_chart_file_name(c.chart@, c.version@),
            ),
            (ChartPush::AwaitArchive, ChartPushEvent::ArchiveFound(false)) => r.0 matches ChartPush::Finished(None) && r.1 is Stop,
            (ChartPush::AwaitArchive, ChartPushEvent::ArchiveFound(true)) => r.0 is AwaitCheck && action_view(r.1) == StepView::Run(
                "helm"@,
                seq![
                    "pull"@,
                    "oci://"@ + registry_host(registry_url@) + "/fedcore/helm-charts/"@ + c.chart@ + ":"@ + c.version@,
                    "--version"@,
                    c.version@,
                    "--destination"@,
                    "/tmp"@,
                ],
            ),
            (ChartPush::AwaitCheck, ChartPushEvent::Exited { success: true, .. }) => r.0 matches ChartPush::Finished(None) && r.1 is Stop,
            (ChartPush::AwaitCheck, ChartPushEvent::Exited { success: false, .. }) | (ChartPush::AwaitCheck, ChartPushEvent::NotRun(_)) =>
                r.0 is AwaitPush && action_view(r.1) == StepView::Run(
                "helm"@,
                seq![
                    "push"@,
                    dir@ + "/"@ + crate::helm::spec_chart_file_name(c.chart@, c.version@),
                    "oci://"@ + registry_host(registry_url@) + "/fedcore/helm-charts"@,
                ],
            ),
            (ChartPush::AwaitPush, ChartPushEvent::Exited { success: true, .. }) => r.0 matches ChartPush::Finished(None) && r.1 is Stop,
            (ChartPush::AwaitPush, ChartPushEvent::Exited { success: false, stderr }) => r.1 is Stop && r.0 is Finished && ({
                let f = r.0->Finished_0;
                &&& (contains(stderr@, "already exists"@) || contains(stderr@, "manifest unknown"@)) ==> f is None
                &&& !(contains(stderr@, "already exists"@) || contains(stderr@, "manifest unknown"@)) ==> (f is Some
                    && f->0.name@ == c.chart@ + ":"@ + c.version@ && f->0.error is Some && f->0.error->0@ == trim(stderr@))
            }),
            (ChartPush::AwaitPush, ChartPushEvent::NotRun(reason)) => r.1 is Stop && r.0 is Finished && r.0->Finished_0 is Some
                && r.0->Finished_0->0.name@ == c.chart@ + ":"@ + c.version@ && r.0->Finished_0->0.error == Some(reason),
            _ => r.1 is Stop,
        },
{
    match (state, event) {
        (ChartPush::Start, _) => (
            ChartPush::AwaitArchive,
            ChartPushAction::LookFor(chart_archive_path(dir, c.chart.as_str(), c.version.as_str())),
        ),
        (ChartPush::AwaitArchive, ChartPushEvent::ArchiveFound(found)) => {
            if found {
                let (_, chart_ref) = chart_push_target(registry_url, c.chart.as_str(), c.version.as_str());
                let cmd = chart_exists_command(chart_ref.as_str(), c.version.as_str());
                assert("oci://"@ + chart_ref@ =~= "oci://"@ + registry_host(registry_url@) + "/fedcore/helm-charts/"@
                    + c.chart@ + ":"@ + c.version@);
                (ChartPush::AwaitCheck, ChartPushAction::Run(cmd))
            } else {
                (ChartPush::Finished(None), ChartPushAction::Stop)
            }
        },
        (ChartPush::AwaitCheck, ChartPushEvent::Exited { success: true, .. }) => (ChartPush::Finished(None), ChartPushAction::Stop),
        (ChartPush::AwaitCheck, ChartPushEvent::Exited { success: false, .. }) | (ChartPush::AwaitCheck, ChartPushEvent::NotRun(_)) => {
            let (oci_url, _) = chart_push_target(registry_url, c.chart.as_str(), c.version.as_str());
            let file = chart_archive_path(dir, c.chart.as_str(), c.version.as_str());
            (ChartPush::AwaitPush, ChartPushAction::Run(chart_push_command(file.as_str(), oci_url.as_str())))
        },
        (ChartPush::AwaitPush, ChartPushEvent::Exited { success, stderr }) => {
            if success {
                (ChartPush::Finished(None), ChartPushAction::Stop)
            } else {
                (ChartPush::Finished(push_failure(c.chart.as_str(), c.version.as_str(), stderr.as_str())), ChartPushAction::Stop)
            }
        },
        (ChartPush::AwaitPush, ChartPushEvent::NotRun(reason)) => {
            let mut n: Vec<char> = Vec::new();
            append_str(&mut n, c.chart.as_str());
            append_str(&mut n, ":");
            append_str(&mut n, c.version.as_str());
            (ChartPush::Finished(Some(TaskFailure::new(string_of(&n), reason))), ChartPushAction::Stop)
        },
        (st, _) => (st, ChartPushAction::Stop),
    }
}

/// The error when the registry login is refused.
pub fn login_failure_message(tool_action: &str, stderr: &str) -> (m: String)
    ensures
        m@ == tool_action@ + " failed: "@ + stderr@,
{
    let mut v: Vec<char> = Vec::new();
    append_str(&mut v, tool_action);
    append_str(&mut v, " failed: ");
    append_str(&mut v, stderr);
    string_of(&v)
}

/// The end of a batch of chart pushes: fine, or an error that counts the
/// failed pushes.
pub fn push_charts_verdict(failures: &Vec<TaskFailure>) -> (r: Result<(), String>)
    ensures
        failures.len() == 0 ==> r is Ok,
        failures.len() > 0 ==> (r is Err && r->Err_0@ == crate::text::decimal(failures.len() as nat) + " "@ + "chart pushes failed"@),
{
    crate::commands::batch_verdict(failures, "chart pushes failed")
}

// ───────────────────────────── chart images ─────────────────────────────

pub open spec fn row_images(rows: Seq<Json>) -> Seq<Seq<char>>
    decreases rows.len(),
{
    if rows.len() == 0 {
        Seq::<Seq<char>>::empty()
    } else {
        match as_str(get(rows.last(), "image"@)) {
            Some(img) => row_images(rows.drop_last()).push(img),
            None => row_images(rows.drop_last()),
        }
    }
}

pub open spec fn table_images(tables: Seq<Json>) -> Seq<Seq<char>>
    decreases tables.len(),
{
    if tables.len() == 0 {
        Seq::<Seq<char>>::empty()
    } else {
        table_images(tables.drop_last()) + match as_array(get(tables.last(), "Rows"@)) {
            Some(rows) => row_images(rows),
            None => Seq::<Seq<char>>::empty(),
        }
    }
}

/// The images that `kbld inspect --json` lists: the `image` of every row of
/// every table.
pub open spec fn listed_images(parsed: Json) -> Seq<Seq<char>> {
    match as_array(get(parsed, "Tables"@)) {
        Some(tables) => table_images(tables),
        None => Seq::<Seq<char>>::empty(),
    }
}

fn add_unique(out: &mut Vec<String>, x: String)
    requires
        str_views(old(out)@).no_duplicates(),
    ensures
        str_views(final(out)@).no_duplicates(),
        str_views(final(out)@).to_set() == str_views(old(out)@).to_set().insert(x@),
{
    let xc = chars_of(x.as_str());
    let mut i: usize = 0;
    while i < out.len()
        invariant
            i <= out.len(),
            xc@ == x@,
            out@ == old(out)@,
            str_views(old(out)@).no_duplicates(),
            forall|k: int| 0 <= k < i ==> out@[k]@ != x@,
        decreases out.len() - i,
    {
        if same_chars(&chars_of(out[i].as_str()), &xc) {
            proof {
                assert(str_views(out@)[i as int] == x@);
                assert(str_views(out@).to_set().insert(x@) =~= str_views(out@).to_set());
                assert(str_views(out@) == str_views(old(out)@));
            }
            return;
        }
        i = i + 1;
    }
    let ghost before = str_views(out@);
    out.push(x);
    proof {
        assert(str_views(out@) =~= before.push(xc@));
        assert forall|k: int| 0 <= k < before.len() implies before[k] != xc@ by {
            assert(before[k] == old(out)@[k]@);
        }
        broadcast use vstd::seq_lib::group_seq_properties;
        assert(str_views(out@).to_set() =~= before.to_set().insert(x@));
    }
}

/// The distinct images of the listing.
pub fn inspect_images(parsed: &Json) -> (r: Vec<String>)
    ensures
        str_views(r@).no_duplicates(),
        str_views(r@).to_set() == listed_images(*parsed).to_set(),
{
    let mut out: Vec<String> = Vec::new();
    let tables = match array_of(member(Some(parsed), "Tables")) {
        Some(t) => t,
        None => {
            assert(str_views(out@).to_set() =~= Set::<Seq<char>>::empty());
            assert(listed_images(*parsed).to_set() =~= Set::<Seq<char>>::empty());
            return out;
        },
    };
    let mut i: usize = 0;
    assert(str_views(out@).to_set() =~= Set::<Seq<char>>::empty());
    assert(table_images(tables@.take(0)).to_set() =~= Set::<Seq<char>>::empty());
    while i < tables.len()
        invariant
            i <= tables.len(),
            str_views(out@).no_duplicates(),
            str_views(out@).to_set() == table_images(tables@.take(i as int)).to_set(),
        decreases tables.len() - i,
    {
        let ghost base = table_images(tables@.take(i as int));
        let ghost rows_seq = match as_array(get(tables@[i as int], "Rows"@)) {
            Some(rows) => row_images(rows),
            None => Seq::<Seq<char>>::empty(),
        };
        match array_of(member(Some(&tables[i]), "Rows")) {
            Some(rows) => {
                let mut j: usize = 0;
                assert(base + row_images(rows@.take(0)) =~= base);
                while j < rows.len()
                    invariant
                        j <= rows.len(),
                        str_views(out@).no_duplicates(),
                        str_views(out@).to_set() == (base + row_images(rows@.take(j as int))).to_set(),
                    decreases rows.len() - j,
                {
                    let ghost pre = base + row_images(rows@.take(j as int));
                    proof {
                        let t = rows@.take(j + 1);
                        assert(t.drop_last() =~= rows@.take(j as int));
                        assert(t.last() == rows@[j as int]);
                    }
                    match text_of(member(Some(&rows[j]), "image")) {
                        Some(img) => {
                            let ghost v = img@;
                            add_unique(&mut out, img);
                            proof {
                                broadcast use vstd::seq_lib::group_seq_properties;
                                assert(base + row_images(rows@.take(j + 1)) =~= pre.push(v));
                                assert((base + row_images(rows@.take(j + 1))).to_set() =~= pre.to_set().insert(v));
                            }
                        },
                        None => {
                            assert(base + row_images(rows@.take(j + 1)) =~= pre);
                        },
                    }
                    j = j + 1;
                }
                assert(rows@.take(rows.len() as int) =~= rows@);
                assert(rows_seq == row_images(rows@));
            },
            None => {
                assert(rows_seq == Seq::<Seq<char>>::empty());
                assert(base + rows_seq =~= base);
            },
        }
        proof {
            let t = tables@.take(i + 1);
            assert(t.drop_last() =~= tables@.take(i as int));
            assert(t.last() == tables@[i as int]);
            assert(table_images(t) == base + rows_seq);
        }
        i = i + 1;
    }
    assert(tables@.take(tables.len() as int) =~= tables@);
    out
}

/// An image reference without a digest: when it has both a tag separator
/// and an `@`, what precedes the first `@`.
pub open spec fn spec_strip_digest(image: Seq<char>) -> Seq<char> {
    if image.contains(':') && image.contains('@') {
        split(image, "@"@)[0]
    } else {
        image
    }
}

fn has_char(s: &Vec<char>, c: char) -> (b: bool)
    ensures
        b == s@.contains(c),
{
    let mut i: usize = 0;
    while i < s.len()
        invariant
            i <= s.len(),
            forall|k: int| 0 <= k < i ==> s@[k] != c,
        decreases s.len() - i,
    {
        if s[i] == c {
            return true;
        }
        i = i + 1;
    }
    false
}

fn strip_digest_chars(image: &Vec<char>) -> (r: Vec<char>)
    ensures
        r@ == spec_strip_digest(image@),
{
    if has_char(image, ':') && has_char(image, '@') {
        proof {
            reveal_strlit("@");
        }
        let pieces = split_chars(image, &chars_of("@"));
        proof {
            crate::text::lemma_split_nonempty(image@, "@"@);
            assert(views(pieces@)[0] == pieces@[0]@);
        }
        slice_of(&pieces[0], 0, pieces[0].len())
    } else {
        slice_of(image, 0, image.len())
    }
}

pub fn strip_digest(image: &str) -> (r: String)
    ensures
        r@ == spec_strip_digest(image@),
{
    string_of(&strip_digest_chars(&chars_of(image)))
}

/// The first piece of a split by a one-character pattern holds no such
/// character.
pub proof fn lemma_first_piece_free(s: Seq<char>, c: char)
    ensures
        !split(s, seq![c])[0].contains(c),
    decreases s.len(),
{
    crate::text::lemma_split_nonempty(s, seq![c]);
    if s.len() < 1 {
        assert(split(s, seq![c])[0] =~= s);
    } else if s.take(1) == seq![c] {
        assert(split(s, seq![c])[0] =~= Seq::<char>::empty());
    } else {
        lemma_first_piece_free(s.drop_first(), c);
        crate::text::lemma_split_nonempty(s.drop_first(), seq![c]);
        let r = split(s.drop_first(), seq![c]);
        assert(s[0] != c) by {
            if s[0] == c {
                assert(s.take(1) =~= seq![c]);
            }
        }
        let first = split(s, seq![c])[0];
        assert(first == seq![s[0]] + r[0]);
        if first.contains(c) {
            let k = choose|k: int| 0 <= k < first.len() && first[k] == c;
            if k > 0 {
                assert(r[0][k - 1] == c);
            }
        }
    }
}

/// Stripping a digest twice is stripping it once.
pub proof fn law_strip_digest_idempotent(image: Seq<char>)
    ensures
        spec_strip_digest(spec_strip_digest(image)) == spec_strip_digest(image),
{
    reveal_strlit("@");
    assert("@"@ =~= seq!['@']);
    if image.contains(':') && image.contains('@') {
        lemma_first_piece_free(image, '@');
    }
}

/// A pull reference for an image: without its digest, and with Docker Hub
/// spelled out when the first path segment names no registry (has no `.`):
/// `docker.io/` before an image with a path, `docker.io/library/` before a
/// bare one.
pub open spec fn spec_normalize_image_ref(source: Seq<char>) -> Seq<char> {
    let image = spec_strip_digest(source);
    if split(image, "/"@)[0].contains('.') {
        image
    } else if image.contains('/') {
        "docker.io/"@ + image
    } else {
        "docker.io/library/"@ + image
    }
}

pub fn normalize_image_ref(source_image: &str) -> (r: String)
    ensures
        r@ == spec_normalize_image_ref(source_image@),
{
    let image = strip_digest_chars(&chars_of(source_image));
    proof {
        reveal_strlit("/");
    }
    let pieces = split_chars(&image, &chars_of("/"));
    proof {
        crate::text::lemma_split_nonempty(image@, "/"@);
        assert(views(pieces@)[0] == pieces@[0]@);
    }
    let mut out: Vec<char> = Vec::new();
    if has_char(&pieces[0], '.') {
        append_chars(&mut out, &image);
    } else if has_char(&image, '/') {
        append_str(&mut out, "docker.io/");
        append_chars(&mut out, &image);
    } else {
        append_str(&mut out, "docker.io/library/");
        append_chars(&mut out, &image);
    }
    string_of(&out)
}

/// The registries whose prefix is replaced outright.
pub open spec fn known_registries() -> Seq<Seq<char>> {
    seq!["docker.io/"@, "gcr.io/"@, "ghcr.io/"@, "quay.io/"@, "registry.k8s.io/"@, "k8s.gcr.io/"@]
}

/// The first known registry that prefixes the image, by position.
pub open spec fn known_prefix(image: Seq<char>, regs: Seq<Seq<char>>) -> Option<Seq<char>>
    decreases regs.len(),
{
    if regs.len() == 0 {
        None
    } else if starts_with(image, regs[0]) {
        Some(regs[0])
    } else {
        known_prefix(image, regs.drop_first())
    }
}

/// The image's place in the target registry: a known registry prefix is
/// replaced; else a first segment that names a host (has `.` or `:`) is;
/// else a bare image goes under `library/` and a pathed one keeps its path.
pub open spec fn spec_replace_registry(image: Seq<char>, target: Seq<char>) -> Seq<char> {
    match known_prefix(image, known_registries()) {
        Some(p) => target + "/"@ + image.skip(p.len() as int),
        None => if image.contains('/') {
            let first = split(image, "/"@)[0];
            if first.contains('.') || first.contains(':') {
                target + "/"@ + image.skip(first.len() as int + 1)
            } else {
                target + "/"@ + image
            }
        } else {
            target + "/library/"@ + image
        },
    }
}

/// The first piece of a split ends where the first occurrence begins.
pub proof fn lemma_first_piece_prefix(s: Seq<char>, c: char)
    requires
        s.contains(c),
    ensures
        split(s, seq![c])[0].len() < s.len(),
        s[split(s, seq![c])[0].len() as int] == c,
        s.take(split(s, seq![c])[0].len() as int) == split(s, seq![c])[0],
    decreases s.len(),
{
    crate::text::lemma_split_nonempty(s, seq![c]);
    if s.take(1) == seq![c] {
        assert(split(s, seq![c])[0] =~= Seq::<char>::empty());
        assert(s.take(0) =~= Seq::<char>::empty());
        assert(s.take(1)[0] == s[0]);
    } else {
        assert(s[0] != c) by {
            if s[0] == c {
                assert(s.take(1) =~= seq![c]);
            }
        }
        let k = choose|k: int| 0 <= k < s.len() && s[k] == c;
        assert(s.drop_first()[k - 1] == c);
        lemma_first_piece_prefix(s.drop_first(), c);
        crate::text::lemma_split_nonempty(s.drop_first(), seq![c]);
        let r = split(s.drop_first(), seq![c]);
        let first = split(s, seq![c])[0];
        assert(first == seq![s[0]] + r[0]);
        assert(s.take(first.len() as int) =~= seq![s[0]] + s.drop_first().take(r[0].len() as int));
        assert(s[first.len() as int] == s.drop_first()[r[0].len() as int]);
    }
}

pub fn replace_registry(source_image: &str, target_registry: &str) -> (r: String)
    ensures
        r@ == spec_replace_registry(source_image@, target_registry@),
{
    let image = chars_of(source_image);
    let mut regs: Vec<Vec<char>> = Vec::new();
    regs.push(chars_of("docker.io/"));
    regs.push(chars_of("gcr.io/"));
    regs.push(chars_of("ghcr.io/"));
    regs.push(chars_of("quay.io/"));
    regs.push(chars_of("registry.k8s.io/"));
    regs.push(chars_of("k8s.gcr.io/"));
    assert(views(regs@) =~= known_registries());
    let mut out: Vec<char> = Vec::new();
    append_str(&mut out, target_registry);
    let mut i: usize = 0;
    assert(known_registries().skip(0) =~= known_registries());
    while i < regs.len()
        invariant
            i <= regs.len(),
            image@ == source_image@,
            out@ == target_registry@,
            views(regs@) == known_registries(),
            known_prefix(image@, known_registries()) == known_prefix(image@, known_registries().skip(i as int)),
        decreases regs.len() - i,
    {
        let ghost rest = known_registries().skip(i as int);
        proof {
            assert(rest[0] == regs@[i as int]@);
            assert(rest.drop_first() =~= known_registries().skip(i + 1));
        }
        if has_prefix(&image, &regs[i]) {
            append_str(&mut out, "/");
            let tail = slice_of(&image, regs[i].len(), image.len());
            append_chars(&mut out, &tail);
            assert(tail@ =~= image@.skip(regs@[i as int]@.len() as int));
            return string_of(&out);
        }
        i = i + 1;
    }
    assert(known_registries().skip(i as int).len() == 0);
    proof {
        reveal_strlit("/");
        assert("/"@ =~= seq!['/']);
    }
    if has_char(&image, '/') {
        let pieces = split_chars(&image, &chars_of("/"));
        proof {
            crate::text::lemma_split_nonempty(image@, "/"@);
            assert(views(pieces@)[0] == pieces@[0]@);
        }
        let first = &pieces[0];
        if has_char(first, '.') || has_char(first, ':') {
            proof {
                lemma_first_piece_prefix(image@, '/');
                assert(first@ == split(image@, seq!['/'])[0]);
                assert(first@.len() < image@.len());
            }
            append_str(&mut out, "/");
            assert(first.len() < image.len());
            let tail = slice_of(&image, first.len() + 1, image.len());
            append_chars(&mut out, &tail);
            assert(tail@ =~= image@.skip(first@.len() as int + 1));
        } else {
            append_str(&mut out, "/");
            append_chars(&mut out, &image);
        }
    } else {
        append_str(&mut out, "/library/");
        append_chars(&mut out, &image);
    }
    string_of(&out)
}

/// Every mirrored image lands under the target registry.
pub proof fn law_replace_registry_targets_registry(image: Seq<char>, target: Seq<char>)
    ensures
        starts_with(spec_replace_registry(image, target), target + "/"@),
{
    reveal_strlit("/");
    reveal_strlit("/library/");
    let r = spec_replace_registry(image, target);
    let p = target + "/"@;
    assert(r.subrange(0, p.len() as int) =~= p);
}

proof fn lemma_known_prefix_found(image: Seq<char>, regs: Seq<Seq<char>>)
    ensures
        known_prefix(image, regs) matches Some(p) ==> starts_with(image, p) && regs.contains(p),
    decreases regs.len(),
{
    if regs.len() > 0 && !starts_with(image, regs[0]) {
        lemma_known_prefix_found(image, regs.drop_first());
        if known_prefix(image, regs) is Some {
            let p = known_prefix(image, regs)->0;
            let i = choose|i: int| 0 <= i < regs.drop_first().len() && regs.drop_first()[i] == p;
            assert(regs[i + 1] == p);
        }
    } else if regs.len() > 0 {
        assert(regs[0] == regs[0]);
    }
}

/// Each known registry prefix is a host name, with a `.` in it, and one
/// closing `/`.
proof fn lemma_known_registry_shape(p: Seq<char>)
    requires
        known_registries().contains(p),
    ensures
        p.len() >= 2,
        p[p.len() - 1] == '/',
        forall|j: int| 0 <= j < p.len() - 1 ==> p[j] != '/',
        p.take(p.len() - 1).contains('.'),
{
    reveal_strlit("docker.io/");
    reveal_strlit("gcr.io/");
    reveal_strlit("ghcr.io/");
    reveal_strlit("quay.io/");
    reveal_strlit("registry.k8s.io/");
    reveal_strlit("k8s.gcr.io/");
    let r = known_registries();
    let i = choose|i: int| 0 <= i < r.len() && r[i] == p;
    let d: int = if i == 0 {
        6
    } else if i == 1 {
        3
    } else if i == 2 {
        4
    } else if i == 3 {
        4
    } else if i == 4 {
        8
    } else {
        3
    };
    assert(p[d] == '.');
    assert(p.take(p.len() - 1)[d] == '.');
}

/// The first `/` of an image that starts with a known registry prefix is
/// the prefix's own.
proof fn lemma_known_prefix_ends_first_segment(image: Seq<char>, p: Seq<char>, k: int)
    requires
        known_registries().contains(p),
        starts_with(image, p),
        0 <= k < image.len(),
        image[k] == '/',
        forall|j: int| 0 <= j < k ==> image[j] != '/',
    ensures
        k == p.len() - 1,
        image.take(k).contains('.'),
{
    lemma_known_registry_shape(p);
    assert(image.subrange(0, p.len() as int) == p);
    assert(image[p.len() - 1] == p[p.len() - 1]);
    if k < p.len() - 1 {
        assert(image[k] == p[k]);
    }
    let h = p.take(p.len() - 1);
    let dot = choose|d: int| 0 <= d < h.len() && #[trigger] h[d] == '.';
    assert(image.take(k)[dot] == p[dot]);
}

/// The first piece of an image split at `/` is everything before its first
/// `/`.
proof fn lemma_first_segment(image: Seq<char>, k: int)
    requires
        0 <= k < image.len(),
        image[k] == '/',
        forall|j: int| 0 <= j < k ==> image[j] != '/',
    ensures
        split(image, "/"@)[0] == image.take(k),
{
    reveal_strlit("/");
    assert("/"@ =~= seq!['/']);
    lemma_first_piece_prefix(image, '/');
    lemma_first_piece_free(image, '/');
    let first = split(image, seq!['/'])[0];
    if first.len() > k {
        assert(first[k] == image[k]);
    }
    if first.len() < k {
        assert(image[first.len() as int] == '/');
    }
}

/// When the first path segment of an image (what precedes its first `/`)
/// names a host, holding a `.` or a `:`, the image lands under the target
/// registry without that segment: the target, `/`, and the rest of the
/// image after the segment and its slash.
pub proof fn law_host_segment_is_replaced(image: Seq<char>, target: Seq<char>, k: int)
    requires
        0 <= k < image.len(),
        image[k] == '/',
        forall|j: int| 0 <= j < k ==> image[j] != '/',
        image.take(k).contains('.') || image.take(k).contains(':'),
    ensures
        spec_replace_registry(image, target) == target + "/"@ + image.skip(k + 1),
{
    lemma_known_prefix_found(image, known_registries());
    match known_prefix(image, known_registries()) {
        Some(p) => {
            lemma_known_prefix_ends_first_segment(image, p, k);
        },
        None => {
            assert(image.contains('/'));
            lemma_first_segment(image, k);
        },
    }
}

/// An image whose first path segment names no host (no `.` or `:` before
/// its first `/`) keeps its whole path under the target registry.
pub proof fn law_pathed_image_keeps_its_path(image: Seq<char>, target: Seq<char>, k: int)
    requires
        0 <= k < image.len(),
        image[k] == '/',
        forall|j: int| 0 <= j < k ==> image[j] != '/',
        !image.take(k).contains('.') && !image.take(k).contains(':'),
    ensures
        spec_replace_registry(image, target) == target + "/"@ + image,
{
    lemma_known_prefix_found(image, known_registries());
    if known_prefix(image, known_registries()) is Some {
        let p = known_prefix(image, known_registries())->0;
        lemma_known_prefix_ends_first_segment(image, p, k);
    }
    assert(image.contains('/'));
    lemma_first_segment(image, k);
}

/// An image with no `/` at all goes under `library/` in the target
/// registry.
pub proof fn law_bare_image_goes_under_library(image: Seq<char>, target: Seq<char>)
    requires
        !image.contains('/'),
    ensures
        spec_replace_registry(image, target) == target + "/library/"@ + image,
{
    lemma_known_prefix_found(image, known_registries());
    if known_prefix(image, known_registries()) is Some {
        let p = known_prefix(image, known_registries())->0;
        lemma_known_registry_shape(p);
        assert(image.subrange(0, p.len() as int) == p);
        assert(image[p.len() - 1] == p[p.len() - 1]);
    }
}

/// How one image is copied into the mirror: from its normalized pull
/// reference to its place in the target registry, digest dropped.
pub fn mirror_single_image(source_image: &str, registry_url: &str) -> (c: CommandLine)
    ensures
        c.program@ == "crane"@,
        str_views(c.args@) == seq![
            "copy"@,
            spec_normalize_image_ref(source_image@),
            spec_replace_registry(spec_strip_digest(source_image@), registry_url@),
        ],
{
    let clean = strip_digest(source_image);
    let target = replace_registry(clean.as_str(), registry_url);
    let source_ref = normalize_image_ref(source_image);
    let mut args: Vec<String> = Vec::new();
    push_arg(&mut args, "copy");
    push_owned(&mut args, source_ref);
    push_owned(&mut args, target);
    CommandLine { program: String::from_str("crane"), args }
}

/// `crane auth login`; the password shows as `***` when `masked`.
pub fn crane_login_command(url: &str, username: &str, password: &str, masked: bool) -> (c: CommandLine)
    ensures
        c.program@ == "crane"@,
        str_views(c.args@) == seq!["auth"@, "login"@, url@, "-u"@, username@, "-p"@, if masked { "***"@ } else { password@ }],
{
    let mut args: Vec<String> = Vec::new();
    push_arg(&mut args, "auth");
    push_arg(&mut args, "login");
    push_arg(&mut args, url);
    push_arg(&mut args, "-u");
    push_arg(&mut args, username);
    push_arg(&mut args, "-p");
    if masked {
        push_arg(&mut args, "***");
    } else {
        push_arg(&mut args, password);
    }
    CommandLine { program: String::from_str("crane"), args }
}

/// How a chart is rendered with its defaults to find its images.
pub fn chart_render_command(temp_dir: &str, chart: &str) -> (c: CommandLine)
    ensures
        c.program@ == "helm"@,
        str_views(c.args@) == seq!["template"@, "temp-release"@, temp_dir@ + "/"@ + chart@],
{
    let mut args: Vec<String> = Vec::new();
    push_arg(&mut args, "template");
    push_arg(&mut args, "temp-release");
    let mut d: Vec<char> = Vec::new();
    append_str(&mut d, temp_dir);
    append_str(&mut d, "/");
    append_str(&mut d, chart);
    push_owned(&mut args, string_of(&d));
    CommandLine { program: String::from_str("helm"), args }
}

/// Whether the missing-credentials warning is due: a push or a mirror is
/// asked for and the registry, username or password is given nowhere.
pub fn credentials_warning_due(push: bool, mirror: bool, has_registry: bool, has_user: bool, has_pass: bool) -> (b: bool)
    ensures
        b == ((push || mirror) && !(has_registry && has_user && has_pass)),
{
    (push || mirror) && !(has_registry && has_user && has_pass)
}

}
