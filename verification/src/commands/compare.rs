//! `compare`: which artifacts are compared, and what differs between the
//! files of two of them.
use vstd::prelude::*;
use crate::text::{
    append_str, chars_of, contains, decimal, match_at, insert_unique_sorted, join_strings, join_with, push_decimal,
    str_views, string_of, strictly_sorted, strip_trail, CharClass,
};
use crate::types::BuildMatrixEntry;

verus! {

// ───────────────────────────── targets ─────────────────────────────

/// The number of targets a comparison needs: one to compare with a local
/// build, two otherwise.
pub open spec fn target_count_error(count: nat, local_build: bool) -> Option<Seq<char>> {
    if local_build {
        if count == 1 {
            None
        } else {
            Some("Provide exactly 1 target when using --artifact/--cluster (got "@ + decimal(count) + ")"@)
        }
    } else if count == 2 {
        None
    } else {
        Some("Provide 2 targets, or 1 target with --artifact/--cluster (got "@ + decimal(count) + ")"@)
    }
}

/// Checks the number of targets; a local build is asked for by giving both
/// an artifact and a cluster.
pub fn check_targets(targets: &Vec<String>, artifact: &Option<String>, cluster: &Option<String>) -> (r: Result<(), String>)
    requires
        artifact.is_some() == cluster.is_some(),
    ensures
        r is Ok <==> target_count_error(targets.len() as nat, artifact.is_some()) is None,
        r matches Err(e) ==> Some(e@) == target_count_error(targets.len() as nat, artifact.is_some()),
{
    let n = targets.len();
    let local = artifact.is_some();
    if local && n != 1 {
        let mut v: Vec<char> = Vec::new();
        append_str(&mut v, "Provide exactly 1 target when using --artifact/--cluster (got ");
        push_decimal(&mut v, n as u64);
        append_str(&mut v, ")");
        Err(string_of(&v))
    } else if !local && n != 2 {
        let mut v: Vec<char> = Vec::new();
        append_str(&mut v, "Provide 2 targets, or 1 target with --artifact/--cluster (got ");
        push_decimal(&mut v, n as u64);
        append_str(&mut v, ")");
        Err(string_of(&v))
    } else {
        Ok(())
    }
}

// ───────────────────────────── the local entry ─────────────────────────────

/// Whether a matrix entry is the one asked for: built from the artifact
/// directory and, when an id is given, with that component id.
pub open spec fn entry_selected(e: BuildMatrixEntry, artifact_path: Seq<char>, id: Option<Seq<char>>) -> bool {
    e.artifact_path@ == artifact_path && match id {
        Some(i) => e.component_id@ == i,
        None => true,
    }
}

/// The indices of the selected entries, in order.
pub open spec fn selected_entries(es: Seq<BuildMatrixEntry>, artifact_path: Seq<char>, id: Option<Seq<char>>) -> Seq<int>
    decreases es.len(),
{
    if es.len() == 0 {
        Seq::empty()
    } else {
        let rest = selected_entries(es.drop_last(), artifact_path, id);
        if entry_selected(es.last(), artifact_path, id) {
            rest.push(es.len() - 1)
        } else {
            rest
        }
    }
}

/// The entry to build locally, or why there is none: several match, or none.
pub open spec fn spec_select_entry(es: Seq<BuildMatrixEntry>, artifact_path: Seq<char>, id: Option<Seq<char>>) -> Result<
    int,
    Seq<char>,
> {
    let s = selected_entries(es, artifact_path, id);
    if s.len() > 1 {
        Err(
            "Multiple instances found for '"@ + artifact_path + "': "@ + join_with(
                s.map_values(|i: int| es[i].component_id@),
                ", "@,
            ) + ". Use --id to select one."@,
        )
    } else if s.len() == 0 {
        Err("Component '"@ + artifact_path + "' not found in cluster config"@)
    } else {
        Ok(s[0])
    }
}

proof fn lemma_selected_in_range(es: Seq<BuildMatrixEntry>, artifact_path: Seq<char>, id: Option<Seq<char>>)
    ensures
        forall|k: int| 0 <= k < selected_entries(es, artifact_path, id).len() ==> 0 <= #[trigger] selected_entries(es, artifact_path, id)[k] < es.len(),
        forall|k: int| 0 <= k < selected_entries(es, artifact_path, id).len() ==> entry_selected(es[#[trigger] selected_entries(es, artifact_path, id)[k]], artifact_path, id),
    decreases es.len(),
{
    if es.len() > 0 {
        lemma_selected_in_range(es.drop_last(), artifact_path, id);
        let rest = selected_entries(es.drop_last(), artifact_path, id);
        assert forall|k: int| 0 <= k < rest.len() implies es[rest[k]] == es.drop_last()[rest[k]] by {}
        if entry_selected(es.last(), artifact_path, id) {
            assert(selected_entries(es, artifact_path, id) == rest.push(es.len() - 1));
        } else {
            assert(selected_entries(es, artifact_path, id) == rest);
        }
    }
}

/// The entry built for a comparison with a local build is one of the
/// requested artifact, with the requested instance id when one is given.
pub proof fn law_selected_entry_matches(es: Seq<BuildMatrixEntry>, artifact_path: Seq<char>, id: Option<Seq<char>>)
    requires
        spec_select_entry(es, artifact_path, id) is Ok,
    ensures
        0 <= spec_select_entry(es, artifact_path, id)->Ok_0 < es.len(),
        entry_selected(es[spec_select_entry(es, artifact_path, id)->Ok_0], artifact_path, id),
{
    lemma_selected_in_range(es, artifact_path, id);
    let s = selected_entries(es, artifact_path, id);
    assert(s.len() == 1);
    assert(0 <= s[0] < es.len());
    assert(entry_selected(es[s[0]], artifact_path, id));
}

/// Picks the matrix entry of the artifact, narrowed to a component id when
/// one is given.
pub fn select_compare_entry(entries: &Vec<BuildMatrixEntry>, artifact_path: &str, id: Option<&str>) -> (r: Result<usize, String>)
    ensures
        match r {
            Ok(i) => spec_select_entry(entries@, artifact_path@, match id { Some(x) => Some(x@), None => None }) == Ok::<int, Seq<char>>(i as int),
            Err(e) => spec_select_entry(entries@, artifact_path@, match id { Some(x) => Some(x@), None => None }) == Err::<int, Seq<char>>(e@),
        },
{
    let ghost idv: Option<Seq<char>> = match id {
        Some(x) => Some(x@),
        None => None,
    };
    let ap = chars_of(artifact_path);
    let want = match id {
        Some(x) => Some(chars_of(x)),
        None => None,
    };
    let mut found: Vec<usize> = Vec::new();
    let mut i: usize = 0;
    while i < entries.len()
        invariant
            i <= entries.len(),
            ap@ == artifact_path@,
            match want {
                Some(w) => idv == Some(w@),
                None => idv is None,
            },
            found@.len() == selected_entries(entries@.take(i as int), artifact_path@, idv).len(),
            forall|k: int| 0 <= k < found@.len() ==> found@[k] as int == #[trigger] selected_entries(entries@.take(i as int), artifact_path@, idv)[k],
        decreases entries.len() - i,
    {
        let e = &entries[i];
        let same_path = crate::text::same_chars(&chars_of(e.artifact_path.as_str()), &ap);
        let same_id = match &want {
            Some(w) => crate::text::same_chars(&chars_of(e.component_id.as_str()), w),
            None => true,
        };
        proof {
            assert(entries@.take(i + 1).drop_last() =~= entries@.take(i as int));
            assert(entries@.take(i + 1).last() == entries@[i as int]);
        }
        if same_path && same_id {
            found.push(i);
        }
        i = i + 1;
    }
    assert(entries@.take(entries.len() as int) =~= entries@);
    proof {
        lemma_selected_in_range(entries@, artifact_path@, idv);
    }
    let ghost s = selected_entries(entries@, artifact_path@, idv);
    if found.len() > 1 {
        let mut ids: Vec<String> = Vec::new();
        let mut k: usize = 0;
        while k < found.len()
            invariant
                k <= found.len(),
                found@.len() == s.len(),
                forall|j: int| 0 <= j < found@.len() ==> found@[j] as int == #[trigger] s[j],
                forall|j: int| 0 <= j < s.len() ==> 0 <= #[trigger] s[j] < entries@.len(),
                str_views(ids@) == s.take(k as int).map_values(|x: int| entries@[x].component_id@),
            decreases found.len() - k,
        {
            let ghost before = str_views(ids@);
            assert(found@[k as int] as int == s[k as int]);
            ids.push(entries[found[k]].component_id.clone());
            assert(str_views(ids@) =~= before.push(entries@[s[k as int]].component_id@));
            assert(s.take(k + 1).map_values(|x: int| entries@[x].component_id@) =~= s.take(k as int).map_values(
                |x: int| entries@[x].component_id@,
            ).push(entries@[s[k as int]].component_id@));
            k = k + 1;
        }
        assert(s.take(found.len() as int) =~= s);
        let joined = join_strings(&ids, ", ");
        let mut v: Vec<char> = Vec::new();
        append_str(&mut v, "Multiple instances found for '");
        append_str(&mut v, artifact_path);
        append_str(&mut v, "': ");
        append_str(&mut v, joined.as_str());
        append_str(&mut v, ". Use --id to select one.");
        Err(string_of(&v))
    } else if found.len() == 0 {
        let mut v: Vec<char> = Vec::new();
        append_str(&mut v, "Component '");
        append_str(&mut v, artifact_path);
        append_str(&mut v, "' not found in cluster config");
        Err(string_of(&v))
    } else {
        Ok(found[0])
    }
}

// ───────────────────────────── unified diffs ─────────────────────────────

/// A line of a unified diff: a hunk header, or a line taken out, put in, or
/// kept as context.
#[derive(Clone, Copy, PartialEq, Eq, Structural, Debug)]
pub enum DiffTag {
    Hunk,
    Delete,
    Insert,
    Equal,
}

pub open spec fn diff_views(v: Seq<(DiffTag, String)>) -> Seq<(DiffTag, Seq<char>)> {
    v.map_values(|x: (DiffTag, String)| (x.0, x.1@))
}

/// What the `similar` crate's line diff of two texts gives as a unified
/// diff with the given context radius: each hunk's header, then its lines.
pub uninterp spec fn spec_unified_diff(old: Seq<char>, new: Seq<char>, radius: usize) -> Seq<(DiffTag, Seq<char>)>;

/// `similar::TextDiff::from_lines(old, new).unified_diff().context_radius(radius)`:
/// for each hunk, its header (`@@ -a,b +c,d @@`), then each change of the
/// hunk with its tag and its text, newline included. The result is named,
/// not spelled out: the diff algorithm is not restated here.
#[verifier::external_body]
fn unified_diff(old: &str, new: &str, radius: usize) -> (r: Vec<(DiffTag, String)>)
    ensures
        diff_views(r@) == spec_unified_diff(old@, new@, radius),
{
    let diff = similar::TextDiff::from_lines(old, new);
    let mut out = Vec::new();
    for hunk in diff.unified_diff().context_radius(radius).iter_hunks() {
        out.push((DiffTag::Hunk, hunk.header().to_string()));
        for change in hunk.iter_changes() {
            let tag = match change.tag() {
                similar::ChangeTag::Delete => DiffTag::Delete,
                similar::ChangeTag::Insert => DiffTag::Insert,
                similar::ChangeTag::Equal => DiffTag::Equal,
            };
            out.push((tag, change.to_string_lossy().to_string()));
        }
    }
    out
}

/// The context lines shown around each change.
pub const CONTEXT_RADIUS: usize = 3;

/// A diff line as shown: changed and context lines lose their line ends.
pub open spec fn shown_diff_line(x: (DiffTag, Seq<char>)) -> (DiffTag, Seq<char>) {
    if x.0 == DiffTag::Hunk {
        x
    } else {
        (x.0, strip_trail(x.1, CharClass::Only('\n')))
    }
}

/// The lines shown for a changed file, from its old and its new text.
pub fn diff_lines(old: &str, new: &str) -> (r: Vec<(DiffTag, String)>)
    ensures
        diff_views(r@) == spec_unified_diff(old@, new@, CONTEXT_RADIUS).map_values(
            |x: (DiffTag, Seq<char>)| shown_diff_line(x),
        ),
{
    let raw = unified_diff(old, new, CONTEXT_RADIUS);
    let ghost rv = diff_views(raw@);
    let mut out: Vec<(DiffTag, String)> = Vec::new();
    let mut i: usize = 0;
    while i < raw.len()
        invariant
            i <= raw.len(),
            rv == diff_views(raw@),
            diff_views(out@) == rv.take(i as int).map_values(|x: (DiffTag, Seq<char>)| shown_diff_line(x)),
        decreases raw.len() - i,
    {
        let tag = raw[i].0;
        let line = if tag == DiffTag::Hunk {
            raw[i].1.clone()
        } else {
            let t = chars_of(raw[i].1.as_str());
            let b = crate::text::trail_bound(&t, 0, t.len(), &CharClass::Only('\n'));
            assert(t@.subrange(0, t.len() as int) =~= t@);
            string_of(&crate::text::slice_of(&t, 0, b))
        };
        let ghost before = diff_views(out@);
        out.push((tag, line));
        assert(diff_views(out@) =~= before.push((tag, line@)));
        assert(rv.take(i + 1).map_values(|x: (DiffTag, Seq<char>)| shown_diff_line(x)) =~= rv.take(
            i as int,
        ).map_values(|x: (DiffTag, Seq<char>)| shown_diff_line(x)).push(shown_diff_line(rv[i as int])));
        i = i + 1;
    }
    assert(rv.take(raw.len() as int) =~= rv);
    out
}

// ───────────────────────────── comparing file sets ─────────────────────────────

/// A file of an artifact: its path inside the artifact, and its text.
pub struct ArtifactFile {
    pub path: String,
    pub content: String,
}

pub open spec fn file_paths(fs: Seq<ArtifactFile>) -> Seq<Seq<char>> {
    fs.map_values(|f: ArtifactFile| f.path@)
}

/// The text of the file at `p`, if there is one.
pub open spec fn content_at(fs: Seq<ArtifactFile>, p: Seq<char>) -> Option<Seq<char>>
    decreases fs.len(),
{
    if fs.len() == 0 {
        None
    } else if fs.last().path@ == p {
        Some(fs.last().content@)
    } else {
        content_at(fs.drop_last(), p)
    }
}

/// How a file differs between the left and the right artifact.
pub enum FileChange {
    /// Only on the left.
    Removed(String),
    /// Only on the right.
    Added(String),
    /// On both sides, with different texts.
    Changed(String),
    /// On both sides, with the same text.
    Identical(String),
}

pub enum ChangeView {
    Removed(Seq<char>),
    Added(Seq<char>),
    Changed(Seq<char>),
    Identical(Seq<char>),
}

impl View for FileChange {
    type V = ChangeView;

    open spec fn view(&self) -> ChangeView {
        match self {
            FileChange::Removed(p) => ChangeView::Removed(p@),
            FileChange::Added(p) => ChangeView::Added(p@),
            FileChange::Changed(p) => ChangeView::Changed(p@),
            FileChange::Identical(p) => ChangeView::Identical(p@),
        }
    }
}

pub open spec fn change_views(v: Seq<FileChange>) -> Seq<ChangeView> {
    v.map_values(|c: FileChange| c@)
}

pub open spec fn change_path(c: ChangeView) -> Seq<char> {
    match c {
        ChangeView::Removed(p) => p,
        ChangeView::Added(p) => p,
        ChangeView::Changed(p) => p,
        ChangeView::Identical(p) => p,
    }
}

/// How the file at `p` compares.
pub open spec fn classify(left: Seq<ArtifactFile>, right: Seq<ArtifactFile>, p: Seq<char>) -> ChangeView {
    match (content_at(left, p), content_at(right, p)) {
        (Some(a), Some(b)) => if a == b {
            ChangeView::Identical(p)
        } else {
            ChangeView::Changed(p)
        },
        (Some(_), None) => ChangeView::Removed(p),
        _ => ChangeView::Added(p),
    }
}

fn find_content(fs: &Vec<ArtifactFile>, p: &Vec<char>) -> (r: Option<usize>)
    ensures
        match r {
            Some(i) => i < fs.len() && content_at(fs@, p@) == Some(fs@[i as int].content@),
            None => content_at(fs@, p@) is None,
        },
{
    let mut i = fs.len();
    assert(fs@.take(i as int) =~= fs@);
    while i > 0
        invariant
            i <= fs.len(),
            content_at(fs@, p@) == content_at(fs@.take(i as int), p@),
        decreases i,
    {
        let q = chars_of(fs[i - 1].path.as_str());
        assert(fs@.take(i as int).last() == fs@[i - 1]);
        assert(fs@.take(i as int).drop_last() =~= fs@.take(i - 1));
        if crate::text::same_chars(&q, p) {
            return Some(i - 1);
        }
        i = i - 1;
    }
    None
}

fn file_change(left: &Vec<ArtifactFile>, right: &Vec<ArtifactFile>, path: String) -> (c: FileChange)
    ensures
        c@ == classify(left@, right@, path@),
{
    let p = chars_of(path.as_str());
    match (find_content(left, &p), find_content(right, &p)) {
        (Some(a), Some(b)) => {
            let x = chars_of(left[a].content.as_str());
            let y = chars_of(right[b].content.as_str());
            if crate::text::same_chars(&x, &y) {
                FileChange::Identical(path)
            } else {
                FileChange::Changed(path)
            }
        },
        (Some(_), None) => FileChange::Removed(path),
        _ => FileChange::Added(path),
    }
}

/// Every path of either side, each once, in sorted order, classified.
pub open spec fn compared(left: Seq<ArtifactFile>, right: Seq<ArtifactFile>, c: Seq<ChangeView>) -> bool {
    let ps = c.map_values(|x: ChangeView| change_path(x));
    &&& strictly_sorted(ps)
    &&& ps.to_set() == file_paths(left).to_set() + file_paths(right).to_set()
    &&& forall|i: int| 0 <= i < c.len() ==> #[trigger] c[i] == classify(left, right, ps[i])
}

/// Compares the files of two artifacts, path by path in sorted order.
pub fn compare_files(left: &Vec<ArtifactFile>, right: &Vec<ArtifactFile>) -> (r: Vec<FileChange>)
    ensures
        compared(left@, right@, change_views(r@)),
{
    broadcast use vstd::seq_lib::group_seq_properties;
    let mut paths: Vec<String> = Vec::new();
    let mut i: usize = 0;
    assert(str_views(paths@).to_set() =~= file_paths(left@).take(0).to_set());
    while i < left.len()
        invariant
            i <= left.len(),
            strictly_sorted(str_views(paths@)),
            str_views(paths@).to_set() == file_paths(left@).take(i as int).to_set(),
        decreases left.len() - i,
    {
        let ghost before = file_paths(left@).take(i as int);
        insert_unique_sorted(&mut paths, left[i].path.clone());
        proof {
            lemma_push_to_set(before, left@[i as int].path@);
            assert(file_paths(left@).take(i + 1) =~= before.push(left@[i as int].path@));
        }
        i = i + 1;
    }
    assert(file_paths(left@).take(left.len() as int) =~= file_paths(left@));
    let mut j: usize = 0;
    assert(file_paths(right@).take(0).to_set() =~= Set::<Seq<char>>::empty());
    assert(str_views(paths@).to_set() =~= file_paths(left@).to_set() + file_paths(right@).take(0).to_set());
    while j < right.len()
        invariant
            j <= right.len(),
            strictly_sorted(str_views(paths@)),
            str_views(paths@).to_set() == file_paths(left@).to_set() + file_paths(right@).take(j as int).to_set(),
        decreases right.len() - j,
    {
        let ghost before = file_paths(right@).take(j as int);
        insert_unique_sorted(&mut paths, right[j].path.clone());
        proof {
            lemma_push_to_set(before, right@[j as int].path@);
            assert(file_paths(right@).take(j + 1) =~= before.push(right@[j as int].path@));
            assert(file_paths(left@).to_set() + before.to_set().insert(right@[j as int].path@) =~= (
            file_paths(left@).to_set() + before.to_set()).insert(right@[j as int].path@));
        }
        j = j + 1;
    }
    assert(file_paths(right@).take(right.len() as int) =~= file_paths(right@));
    let mut out: Vec<FileChange> = Vec::new();
    let mut k: usize = 0;
    while k < paths.len()
        invariant
            k <= paths.len(),
            out@.len() == k,
            forall|m: int| 0 <= m < k ==> #[trigger] change_views(out@)[m] == classify(left@, right@, paths@[m]@),
            forall|m: int| 0 <= m < k ==> change_path(#[trigger] change_views(out@)[m]) == paths@[m]@,
        decreases paths.len() - k,
    {
        let c = file_change(left, right, paths[k].clone());
        let ghost before = change_views(out@);
        let ghost cv = c@;
        out.push(c);
        assert(change_views(out@) =~= before.push(cv));
        k = k + 1;
    }
    proof {
        let cv = change_views(out@);
        let ps = cv.map_values(|x: ChangeView| change_path(x));
        assert(ps =~= str_views(paths@));
    }
    out
}

proof fn lemma_push_to_set(s: Seq<Seq<char>>, x: Seq<char>)
    ensures
        s.push(x).to_set() == s.to_set().insert(x),
{
    broadcast use vstd::seq_lib::group_seq_properties;
    assert forall|y: Seq<char>| s.push(x).to_set().contains(y) <==> s.to_set().insert(x).contains(y) by {
        if s.push(x).contains(y) {
            let k = choose|k: int| 0 <= k < s.push(x).len() && s.push(x)[k] == y;
            if k < s.len() {
                assert(s[k] == y);
            }
        }
        if s.contains(y) {
            let k = choose|k: int| 0 <= k < s.len() && s[k] == y;
            assert(s.push(x)[k] == y);
        }
        if y == x {
            assert(s.push(x)[s.len() as int] == y);
        }
    }
    assert(s.push(x).to_set() =~= s.to_set().insert(x));
}

// ───────────────────────────── the summary ─────────────────────────────

/// How many compared files are of each kind.
pub open spec fn count_where(c: Seq<ChangeView>, f: spec_fn(ChangeView) -> bool) -> nat
    decreases c.len(),
{
    if c.len() == 0 {
        0
    } else {
        count_where(c.drop_last(), f) + if f(c.last()) {
            1nat
        } else {
            0nat
        }
    }
}

pub open spec fn changed_count(c: Seq<ChangeView>) -> nat {
    count_where(c, |x: ChangeView| x is Changed)
}

pub open spec fn added_count(c: Seq<ChangeView>) -> nat {
    count_where(c, |x: ChangeView| x is Added)
}

pub open spec fn removed_count(c: Seq<ChangeView>) -> nat {
    count_where(c, |x: ChangeView| x is Removed)
}

pub open spec fn identical_count(c: Seq<ChangeView>) -> nat {
    count_where(c, |x: ChangeView| x is Identical)
}

/// The parts of the summary, for the kinds that occur: changed, added,
/// removed, identical.
pub open spec fn summary_parts(changed: nat, added: nat, removed: nat, identical: nat) -> Seq<Seq<char>> {
    (if changed > 0 { seq![decimal(changed) + " changed"@] } else { Seq::empty() })
        + (if added > 0 { seq![decimal(added) + " added"@] } else { Seq::empty() })
        + (if removed > 0 { seq![decimal(removed) + " removed"@] } else { Seq::empty() })
        + (if identical > 0 { seq![decimal(identical) + " identical"@] } else { Seq::empty() })
}

/// The closing line of a comparison.
pub open spec fn spec_diff_summary(c: Seq<ChangeView>) -> Seq<char> {
    if changed_count(c) == 0 && added_count(c) == 0 && removed_count(c) == 0 {
        "Artifacts are identical"@
    } else {
        join_with(
            summary_parts(changed_count(c), added_count(c), removed_count(c), identical_count(c)),
            ", "@,
        )
    }
}

fn push_part(parts: &mut Vec<String>, n: usize, what: &str)
    ensures
        str_views(final(parts)@) == str_views(old(parts)@) + if n > 0 {
            seq![decimal(n as nat) + what@]
        } else {
            Seq::<Seq<char>>::empty()
        },
{
    if n > 0 {
        let mut v: Vec<char> = Vec::new();
        push_decimal(&mut v, n as u64);
        append_str(&mut v, what);
        let s = string_of(&v);
        let ghost sv = s@;
        parts.push(s);
        assert(str_views(final(parts)@) =~= str_views(old(parts)@) + seq![sv]);
    } else {
        assert(str_views(final(parts)@) =~= str_views(old(parts)@) + Seq::<Seq<char>>::empty());
    }
}

/// The closing line of a comparison: that the artifacts are identical, or
/// how many files changed, were added, removed, or stayed the same.
pub fn diff_summary(changes: &Vec<FileChange>) -> (s: String)
    ensures
        s@ == spec_diff_summary(change_views(changes@)),
{
    let ghost cv = change_views(changes@);
    let mut changed: usize = 0;
    let mut added: usize = 0;
    let mut removed: usize = 0;
    let mut identical: usize = 0;
    let mut i: usize = 0;
    while i < changes.len()
        invariant
            i <= changes.len(),
            cv == change_views(changes@),
            changed == changed_count(cv.take(i as int)),
            added == added_count(cv.take(i as int)),
            removed == removed_count(cv.take(i as int)),
            identical == identical_count(cv.take(i as int)),
            changed + added + removed + identical == i,
        decreases changes.len() - i,
    {
        proof {
            let t = cv.take(i + 1);
            assert(t.drop_last() =~= cv.take(i as int));
            assert(t.last() == changes@[i as int]@);
        }
        match &changes[i] {
            FileChange::Changed(_) => changed = changed + 1,
            FileChange::Added(_) => added = added + 1,
            FileChange::Removed(_) => removed = removed + 1,
            FileChange::Identical(_) => identical = identical + 1,
        }
        i = i + 1;
    }
    assert(cv.take(changes.len() as int) =~= cv);
    if changed == 0 && added == 0 && removed == 0 {
        String::from_str("Artifacts are identical")
    } else {
        let mut parts: Vec<String> = Vec::new();
        assert(str_views(parts@) =~= Seq::<Seq<char>>::empty());
        push_part(&mut parts, changed, " changed");
        push_part(&mut parts, added, " added");
        push_part(&mut parts, removed, " removed");
        push_part(&mut parts, identical, " identical");
        assert(str_views(parts@) =~= summary_parts(changed as nat, added as nat, removed as nat, identical as nat));
        join_strings(&parts, ", ")
    }
}

// ───────────────────────────── what the summary reports ─────────────────────────────

proof fn lemma_count_is_filter(c: Seq<ChangeView>, f: spec_fn(ChangeView) -> bool)
    ensures
        count_where(c, f) == c.filter(f).len(),
    decreases c.len(),
{
    if c.len() > 0 {
        lemma_count_is_filter(c.drop_last(), f);
        assert(c =~= c.drop_last().push(c.last()));
        c.drop_last().lemma_filter_push(c.last(), f);
    }
}

proof fn lemma_count_positive(c: Seq<ChangeView>, f: spec_fn(ChangeView) -> bool, i: int)
    requires
        0 <= i < c.len(),
        f(c[i]),
    ensures
        count_where(c, f) > 0,
    decreases c.len(),
{
    if i < c.len() - 1 {
        assert(c.drop_last()[i] == c[i]);
        lemma_count_positive(c.drop_last(), f, i);
    }
}

proof fn lemma_decimal_leads_with_digit(n: nat)
    ensures
        decimal(n).len() > 0,
        decimal(n)[0] != 'A',
    decreases n,
{
    if n >= 10 {
        lemma_decimal_leads_with_digit(n / 10);
    }
}

proof fn lemma_join_leads_with_first(parts: Seq<Seq<char>>, sep: Seq<char>)
    requires
        parts.len() > 0,
        parts[0].len() > 0,
    ensures
        join_with(parts, sep).len() > 0,
        join_with(parts, sep)[0] == parts[0][0],
    decreases parts.len(),
{
    if parts.len() > 1 {
        assert(parts.drop_last()[0] == parts[0]);
        lemma_join_leads_with_first(parts.drop_last(), sep);
    }
}

proof fn lemma_part_in_join(parts: Seq<Seq<char>>, sep: Seq<char>, k: int)
    requires
        0 <= k < parts.len(),
    ensures
        contains(join_with(parts, sep), parts[k]),
    decreases parts.len(),
{
    let j = join_with(parts, sep);
    if parts.len() == 1 {
        assert(j.subrange(0, parts[0].len() as int) =~= parts[0]);
        assert(match_at(j, 0, parts[k]));
    } else {
        let head = join_with(parts.drop_last(), sep);
        assert(j == head + sep + parts.last());
        if k == parts.len() - 1 {
            let at: int = (head.len() + sep.len()) as int;
            assert(j.subrange(at, at + parts[k].len()) =~= parts[k]);
            assert(match_at(j, at, parts[k]));
        } else {
            assert(parts.drop_last()[k] == parts[k]);
            lemma_part_in_join(parts.drop_last(), sep, k);
            let at = choose|at: int| match_at(head, at, parts[k]);
            assert(j.subrange(at, at + parts[k].len()) =~= head.subrange(at, at + parts[k].len()));
            assert(match_at(j, at, parts[k]));
        }
    }
}

/// The summary says that the artifacts are identical exactly when every
/// compared file is identical. Otherwise it counts in decimal every kind of
/// difference that occurs: `<n> changed`, `<n> added`, `<n> removed`, with
/// `n` the number of files of that kind.
pub proof fn law_summary_reports_every_difference(c: Seq<ChangeView>)
    ensures
        spec_diff_summary(c) == "Artifacts are identical"@ <==> (forall|i: int| 0 <= i < c.len() ==> (#[trigger] c[i]) is Identical),
        c.filter(|x: ChangeView| x is Changed).len() > 0 ==> contains(
            spec_diff_summary(c),
            decimal(c.filter(|x: ChangeView| x is Changed).len()) + " changed"@,
        ),
        c.filter(|x: ChangeView| x is Added).len() > 0 ==> contains(
            spec_diff_summary(c),
            decimal(c.filter(|x: ChangeView| x is Added).len()) + " added"@,
        ),
        c.filter(|x: ChangeView| x is Removed).len() > 0 ==> contains(
            spec_diff_summary(c),
            decimal(c.filter(|x: ChangeView| x is Removed).len()) + " removed"@,
        ),
        (exists|i: int| 0 <= i < c.len() && !((#[trigger] c[i]) is Identical)) && c.filter(
            |x: ChangeView| x is Identical,
        ).len() > 0 ==> contains(
            spec_diff_summary(c),
            decimal(c.filter(|x: ChangeView| x is Identical).len()) + " identical"@,
        ),
{
    reveal_strlit("Artifacts are identical");
    let fc = |x: ChangeView| x is Changed;
    let fa = |x: ChangeView| x is Added;
    let fr = |x: ChangeView| x is Removed;
    let fi = |x: ChangeView| x is Identical;
    lemma_count_is_filter(c, fc);
    lemma_count_is_filter(c, fa);
    lemma_count_is_filter(c, fr);
    lemma_count_is_filter(c, fi);
    let ch = changed_count(c);
    let ad = added_count(c);
    let rm = removed_count(c);
    let id = identical_count(c);
    assert(ch == c.filter(fc).len());
    assert(ad == c.filter(fa).len());
    assert(rm == c.filter(fr).len());
    assert(id == c.filter(fi).len());
    if forall|i: int| 0 <= i < c.len() ==> (#[trigger] c[i]) is Identical {
        lemma_no_differences(c);
    } else {
        let i = choose|i: int| 0 <= i < c.len() && !((#[trigger] c[i]) is Identical);
        match c[i] {
            ChangeView::Changed(_) => lemma_count_positive(c, fc, i),
            ChangeView::Added(_) => lemma_count_positive(c, fa, i),
            ChangeView::Removed(_) => lemma_count_positive(c, fr, i),
            ChangeView::Identical(_) => {},
        }
    }
    if ch > 0 || ad > 0 || rm > 0 {
        let a: Seq<Seq<char>> = if ch > 0 { seq![decimal(ch) + " changed"@] } else { Seq::empty() };
        let b: Seq<Seq<char>> = if ad > 0 { seq![decimal(ad) + " added"@] } else { Seq::empty() };
        let r: Seq<Seq<char>> = if rm > 0 { seq![decimal(rm) + " removed"@] } else { Seq::empty() };
        let t: Seq<Seq<char>> = if id > 0 { seq![decimal(id) + " identical"@] } else { Seq::empty() };
        let parts = summary_parts(ch, ad, rm, id);
        assert(parts == a + b + r + t);
        assert(spec_diff_summary(c) == join_with(parts, ", "@));
        let n0: nat = if ch > 0 { ch } else if ad > 0 { ad } else { rm };
        lemma_decimal_leads_with_digit(n0);
        assert(parts[0][0] == decimal(n0)[0]);
        lemma_join_leads_with_first(parts, ", "@);
        assert(spec_diff_summary(c)[0] != "Artifacts are identical"@[0]);
        if ch > 0 {
            assert(parts[0] == decimal(ch) + " changed"@);
            lemma_part_in_join(parts, ", "@, 0);
        }
        if ad > 0 {
            assert(parts[a.len() as int] == decimal(ad) + " added"@);
            lemma_part_in_join(parts, ", "@, a.len() as int);
        }
        if rm > 0 {
            let k: int = (a.len() + b.len()) as int;
            assert(parts[k] == decimal(rm) + " removed"@);
            lemma_part_in_join(parts, ", "@, k);
        }
        if id > 0 {
            let k: int = (a.len() + b.len() + r.len()) as int;
            assert(parts[k] == decimal(id) + " identical"@);
            lemma_part_in_join(parts, ", "@, k);
        }
    }
}

// ───────────────────────────── comparing an artifact with itself ─────────────────────────────

proof fn lemma_content_present(fs: Seq<ArtifactFile>, p: Seq<char>)
    requires
        file_paths(fs).contains(p),
    ensures
        content_at(fs, p) is Some,
    decreases fs.len(),
{
    if fs.last().path@ != p {
        let k = choose|k: int| 0 <= k < file_paths(fs).len() && file_paths(fs)[k] == p;
        assert(k != fs.len() - 1);
        assert(file_paths(fs.drop_last())[k] == p);
        lemma_content_present(fs.drop_last(), p);
    }
}

proof fn lemma_no_differences(c: Seq<ChangeView>)
    requires
        forall|i: int| 0 <= i < c.len() ==> (#[trigger] c[i]) is Identical,
    ensures
        changed_count(c) == 0,
        added_count(c) == 0,
        removed_count(c) == 0,
    decreases c.len(),
{
    if c.len() > 0 {
        lemma_no_differences(c.drop_last());
        assert(c.last() is Identical);
    }
}

/// Comparing an artifact with itself finds every file identical, and the
/// comparison says that the artifacts are identical.
pub proof fn law_self_comparison_is_identical(files: Seq<ArtifactFile>, c: Seq<ChangeView>)
    requires
        compared(files, files, c),
    ensures
        forall|i: int| 0 <= i < c.len() ==> (#[trigger] c[i]) is Identical,
        spec_diff_summary(c) == "Artifacts are identical"@,
{
    broadcast use vstd::seq_lib::group_seq_properties;
    let ps = c.map_values(|x: ChangeView| change_path(x));
    assert forall|i: int| 0 <= i < c.len() implies (#[trigger] c[i]) is Identical by {
        assert(ps[i] == change_path(c[i]));
        assert(ps.contains(ps[i]));
        assert(ps.to_set().contains(ps[i]));
        assert(file_paths(files).to_set().contains(ps[i]));
        lemma_content_present(files, ps[i]);
        assert(c[i] == classify(files, files, ps[i]));
    }
    lemma_no_differences(c);
}

}
