//! Bootstrap manifest generation: what the Flux install export is cut down to,
//! and how the admin-prep and bootstrap manifests are put together.
use vstd::prelude::*;
use crate::commands::{file_args, push_arg, push_file_args, push_owned, CommandLine};
use crate::paths::{BOOTSTRAP_SOURCES_BASE, CLUSTER_SCHEMA};
use crate::text::{
    append_str, replace_all, replace_chars,
    insert_unique_sorted, strictly_sorted, split, split_chars, strip_prefix, trim_char,
    append_chars, repeated_prefix_end, strip_repeated, chars_of, has_prefix, join_lines, lemma_join_lines_push, lines, lines_of,
    list_contains, matches_at, push_line, same_chars, slice_of, starts_with, str_views,
    string_of, strip_bounds, trim, views, CharClass,
};

verus! {

// ───────────────────────────── CRD extraction ─────────────────────────────

/// One line of the CRD scan: the state is whether the scan is inside a
/// CustomResourceDefinition document, and the text kept so far.
pub open spec fn crd_step(st: (bool, Seq<char>), line: Seq<char>) -> (bool, Seq<char>) {
    if line == "---"@ {
        (false, if st.0 { st.1 + line + seq!['\n'] } else { st.1 })
    } else {
        let opened = starts_with(line, "kind: CustomResourceDefinition"@);
        let out = if opened { st.1 + "---\n"@ } else { st.1 };
        let inside = st.0 || opened;
        (inside, if inside { out + line + seq!['\n'] } else { out })
    }
}

pub open spec fn crd_scan(ls: Seq<Seq<char>>) -> (bool, Seq<char>)
    decreases ls.len(),
{
    if ls.len() == 0 {
        (false, Seq::<char>::empty())
    } else {
        crd_step(crd_scan(ls.drop_last()), ls.last())
    }
}

/// The CustomResourceDefinition documents of a multi-document YAML stream:
/// from each `kind: CustomResourceDefinition` line up to the next `---`
/// line, each such piece opened by `---`.
pub fn extract_crds(yaml: &str) -> (crds: String)
    ensures
        crds@ == crd_scan(lines(yaml@)).1,
{
    let text = chars_of(yaml);
    let ls = lines_of(&text);
    let sep = chars_of("---");
    let crd_kind = chars_of("kind: CustomResourceDefinition");
    let opener = chars_of("---\n");
    let mut out: Vec<char> = Vec::new();
    let mut in_crd = false;
    let mut i: usize = 0;
    while i < ls.len()
        invariant
            i <= ls.len(),
            views(ls@) == lines(yaml@),
            sep@ == "---"@,
            crd_kind@ == "kind: CustomResourceDefinition"@,
            opener@ == "---\n"@,
            (in_crd, out@) == crd_scan(views(ls@).take(i as int)),
        decreases ls.len() - i,
    {
        let line = &ls[i];
        proof {
            assert(views(ls@).take(i + 1).drop_last() =~= views(ls@).take(i as int));
            assert(views(ls@).take(i + 1).last() == line@);
        }
        if same_chars(line, &sep) {
            if in_crd {
                push_line(&mut out, line);
            }
            in_crd = false;
        } else {
            if has_prefix(line, &crd_kind) {
                in_crd = true;
                append_chars(&mut out, &opener);
            }
            if in_crd {
                push_line(&mut out, line);
            }
        }
        i = i + 1;
    }
    assert(views(ls@).take(ls.len() as int) =~= views(ls@));
    string_of(&out)
}

/// Nothing is kept from a stream in which no line opens a
/// CustomResourceDefinition.
pub proof fn law_no_crd_kind_no_output(ls: Seq<Seq<char>>)
    requires
        forall|i: int| 0 <= i < ls.len() ==> !starts_with(#[trigger] ls[i], "kind: CustomResourceDefinition"@),
    ensures
        crd_scan(ls) == (false, Seq::<char>::empty()),
    decreases ls.len(),
{
    if ls.len() > 0 {
        law_no_crd_kind_no_output(ls.drop_last());
        assert(!starts_with(ls[ls.len() - 1], "kind: CustomResourceDefinition"@));
    }
}

/// What the CRD scan keeps is empty or begins with the `---\n` opener.
pub proof fn law_crd_output_opens_with_separator(ls: Seq<Seq<char>>)
    ensures
        crd_scan(ls).1.len() == 0 || (crd_scan(ls).1.len() >= 4 && crd_scan(ls).1.take(4)
            == "---\n"@),
    decreases ls.len(),
{
    reveal_strlit("---\n");
    if ls.len() > 0 {
        law_crd_output_opens_with_separator(ls.drop_last());
        let prev = crd_scan(ls.drop_last());
        let cur = crd_scan(ls);
        if prev.1.len() > 0 {
            assert(cur.1.take(prev.1.len() as int) =~= prev.1);
            assert(cur.1.take(4) =~= prev.1.take(4));
        } else {
            if cur.1.len() > 0 {
                assert(cur.1.take(4) =~= "---\n"@);
            }
        }
    }
}

// ───────────────────────────── kind filtering ─────────────────────────────

/// The documents of a line stream, cut at the lines that read exactly `---`;
/// the first and the last may be empty.
pub open spec fn split_docs(ls: Seq<Seq<char>>) -> Seq<Seq<Seq<char>>>
    decreases ls.len(),
{
    if ls.len() == 0 {
        seq![Seq::<Seq<char>>::empty()]
    } else {
        let d = split_docs(ls.drop_last());
        if ls.last() == "---"@ {
            d.push(Seq::<Seq<char>>::empty())
        } else {
            d.update(d.len() - 1, d.last().push(ls.last()))
        }
    }
}

pub proof fn lemma_split_docs_nonempty(ls: Seq<Seq<char>>)
    ensures
        split_docs(ls).len() >= 1,
    decreases ls.len(),
{
    if ls.len() > 0 {
        lemma_split_docs_nonempty(ls.drop_last());
    }
}

/// The kind a `kind: ` line names.
pub open spec fn kind_of(line: Seq<char>) -> Seq<char> {
    trim(strip_repeated(line, "kind: "@))
}

/// A line of `doc` names one of the excluded kinds.
pub open spec fn names_excluded_kind(doc: Seq<Seq<char>>, exclude: Seq<Seq<char>>) -> bool {
    exists|i: int|
        0 <= i < doc.len() && starts_with(#[trigger] doc[i], "kind: "@) && exclude.contains(
            kind_of(doc[i]),
        )
}

/// How a document comes out of the filter.
pub open spec fn render_kept(doc: Seq<Seq<char>>, exclude: Seq<Seq<char>>) -> Seq<char> {
    if doc.len() > 0 && !names_excluded_kind(doc, exclude) {
        "---\n"@ + join_lines(doc)
    } else {
        Seq::<char>::empty()
    }
}

pub open spec fn render_all_kept(docs: Seq<Seq<Seq<char>>>, exclude: Seq<Seq<char>>) -> Seq<char>
    decreases docs.len(),
{
    if docs.len() == 0 {
        Seq::<char>::empty()
    } else {
        render_all_kept(docs.drop_last(), exclude) + render_kept(docs.last(), exclude)
    }
}

/// `yaml` without the documents that declare one of the excluded kinds:
/// every non-empty document that names none of them, each opened by `---`.
pub open spec fn spec_strip_resource_kinds(yaml: Seq<char>, exclude: Seq<Seq<char>>) -> Seq<char> {
    render_all_kept(split_docs(lines(yaml)), exclude)
}

/// A document stays in the stream when it has lines and none of its
/// `kind: ` lines, wherever it stands in the document, names an excluded
/// kind.
pub open spec fn stays(doc: Seq<Seq<char>>, exclude: Seq<Seq<char>>) -> bool {
    &&& doc.len() > 0
    &&& forall|i: int| 0 <= i < doc.len() && starts_with(#[trigger] doc[i], "kind: "@) ==> !exclude.contains(kind_of(doc[i]))
}

/// What each document of the stream becomes: itself opened by `---` when
/// it stays, nothing otherwise.
pub open spec fn kept_pieces(docs: Seq<Seq<Seq<char>>>, exclude: Seq<Seq<char>>) -> Seq<Seq<char>> {
    Seq::new(docs.len(), |j: int| if stays(docs[j], exclude) { "---\n"@ + join_lines(docs[j]) } else { Seq::<char>::empty() })
}

proof fn lemma_render_all_kept(docs: Seq<Seq<Seq<char>>>, exclude: Seq<Seq<char>>)
    ensures
        render_all_kept(docs, exclude) == kept_pieces(docs, exclude).flatten(),
    decreases docs.len(),
{
    if docs.len() > 0 {
        lemma_render_all_kept(docs.drop_last(), exclude);
        let p = kept_pieces(docs, exclude);
        assert(p =~= kept_pieces(docs.drop_last(), exclude).push(p.last()));
        kept_pieces(docs.drop_last(), exclude).lemma_flatten_push(p.last());
        let d = docs.last();
        assert(stays(d, exclude) <==> (d.len() > 0 && !names_excluded_kind(d, exclude)));
    }
}

/// Every document of the stream (cut at `---` lines) that has a `kind: `
/// line naming an excluded kind, anywhere in it, is dropped; every other
/// non-empty one comes out whole, opened by `---`, in the order of the
/// stream.
pub proof fn law_excluded_documents_are_dropped(yaml: Seq<char>, exclude: Seq<Seq<char>>)
    ensures
        spec_strip_resource_kinds(yaml, exclude) == kept_pieces(split_docs(lines(yaml)), exclude).flatten(),
        forall|j: int, i: int|
            0 <= j < split_docs(lines(yaml)).len() && 0 <= i < split_docs(lines(yaml))[j].len()
                && starts_with(#[trigger] split_docs(lines(yaml))[j][i], "kind: "@)
                && exclude.contains(kind_of(split_docs(lines(yaml))[j][i]))
                ==> #[trigger] kept_pieces(split_docs(lines(yaml)), exclude)[j].len() == 0,
{
    lemma_render_all_kept(split_docs(lines(yaml)), exclude);
}

/// The kind named by a line that starts with `kind: `.
fn line_kind(line: &Vec<char>, prefix: &Vec<char>) -> (kind: Vec<char>)
    requires
        prefix@ == "kind: "@,
    ensures
        kind@ == kind_of(line@),
{
    proof {
        reveal_strlit("kind: ");
    }
    let k = repeated_prefix_end(line, prefix);
    let (a, b) = strip_bounds(line, k, line.len(), &CharClass::Space);
    assert(line@.subrange(k as int, line.len() as int) =~= line@.skip(k as int));
    slice_of(line, a, b)
}

/// The multi-document YAML stream with every document removed that has a
/// `kind: ` line naming one of `exclude_kinds`; the documents that stay are
/// each opened by `---`, and empty ones are dropped.
pub fn strip_resource_kinds(yaml: &str, exclude_kinds: &Vec<String>) -> (out: String)
    ensures
        out@ == spec_strip_resource_kinds(yaml@, str_views(exclude_kinds@)),
{
    let ghost ex = str_views(exclude_kinds@);
    let text = chars_of(yaml);
    let ls = lines_of(&text);
    let sep = chars_of("---");
    let kind_prefix = chars_of("kind: ");
    let opener = chars_of("---\n");
    let mut out: Vec<char> = Vec::new();
    let mut current: Vec<char> = Vec::new();
    let mut has_lines = false;
    let mut skip = false;
    let ghost mut doc: Seq<Seq<char>> = Seq::empty();
    let mut i: usize = 0;
    proof {
        assert(views(ls@).take(0) =~= Seq::<Seq<char>>::empty());
    }
    while i < ls.len()
        invariant
            i <= ls.len(),
            views(ls@) == lines(yaml@),
            ex == str_views(exclude_kinds@),
            sep@ == "---"@,
            kind_prefix@ == "kind: "@,
            opener@ == "---\n"@,
            split_docs(views(ls@).take(i as int)).len() >= 1,
            doc == split_docs(views(ls@).take(i as int)).last(),
            out@ == render_all_kept(split_docs(views(ls@).take(i as int)).drop_last(), ex),
            current@ == join_lines(doc),
            has_lines == (doc.len() > 0),
            skip == names_excluded_kind(doc, ex),
        decreases ls.len() - i,
    {
        let line = &ls[i];
        let ghost pre = views(ls@).take(i as int);
        let ghost d = split_docs(pre);
        proof {
            assert(views(ls@).take(i + 1).drop_last() =~= pre);
            assert(views(ls@).take(i + 1).last() == line@);
            lemma_split_docs_nonempty(pre);
        }
        if same_chars(line, &sep) {
            let ghost out_before = out@;
            if !skip && has_lines {
                append_chars(&mut out, &opener);
                append_chars(&mut out, &current);
            }
            current = Vec::new();
            has_lines = false;
            skip = false;
            proof {
                let nd = split_docs(views(ls@).take(i + 1));
                assert(nd == d.push(Seq::<Seq<char>>::empty()));
                assert(nd.drop_last() =~= d);
                assert(d.drop_last() =~= split_docs(pre).drop_last());
                assert(render_all_kept(d, ex) == render_all_kept(d.drop_last(), ex) + render_kept(d.last(), ex));
                assert(out@ =~= render_all_kept(d, ex));
                doc = Seq::empty();
                assert(current@ =~= join_lines(doc));
                assert(!names_excluded_kind(doc, ex));
            }
        } else {
            let mut hit = false;
            if has_prefix(line, &kind_prefix) {
                let kind = line_kind(line, &kind_prefix);
                if list_contains(exclude_kinds, &kind) {
                    skip = true;
                    hit = true;
                }
            }
            push_line(&mut current, line);
            has_lines = true;
            proof {
                let nd = split_docs(views(ls@).take(i + 1));
                assert(nd == d.update(d.len() - 1, d.last().push(line@)));
                assert(nd.drop_last() =~= d.drop_last());
                let newdoc = doc.push(line@);
                assert(nd.last() == newdoc);
                lemma_join_lines_push(doc, line@);
                assert(newdoc[newdoc.len() - 1] == line@);
                if hit {
                    assert(names_excluded_kind(newdoc, ex));
                } else {
                    if names_excluded_kind(newdoc, ex) {
                        let j = choose|j: int|
                            0 <= j < newdoc.len() && starts_with(#[trigger] newdoc[j], "kind: "@)
                                && ex.contains(kind_of(newdoc[j]));
                        if j < doc.len() {
                            assert(newdoc[j] == doc[j]);
                        }
                    }
                    if names_excluded_kind(doc, ex) {
                        let j = choose|j: int|
                            0 <= j < doc.len() && starts_with(#[trigger] doc[j], "kind: "@)
                                && ex.contains(kind_of(doc[j]));
                        assert(newdoc[j] == doc[j]);
                    }
                }
                doc = newdoc;
            }
        }
        i = i + 1;
    }
    proof {
        assert(views(ls@).take(ls.len() as int) =~= views(ls@));
    }
    let ghost d = split_docs(views(ls@));
    if !skip && has_lines {
        append_chars(&mut out, &opener);
        append_chars(&mut out, &current);
    }
    proof {
        assert(render_all_kept(d, ex) == render_all_kept(d.drop_last(), ex) + render_kept(d.last(), ex));
        assert(out@ =~= render_all_kept(d, ex));
    }
    string_of(&out)
}


// ───────────────────────────── namespaces of rendered manifests ─────────────────────────────

/// The namespace a `namespace:` line names, without surrounding blanks and
/// quotes; an empty value names none.
pub open spec fn namespace_value(line: Seq<char>) -> Option<Seq<char>> {
    match strip_prefix(trim(line), "namespace:"@) {
        Some(rest) => {
            let v = trim_char(trim_char(trim(rest), '"'), '\'');
            if v.len() > 0 {
                Some(v)
            } else {
                None
            }
        },
        None => None,
    }
}

pub open spec fn line_namespaces(ls: Seq<Seq<char>>) -> Seq<Seq<char>>
    decreases ls.len(),
{
    if ls.len() == 0 {
        Seq::<Seq<char>>::empty()
    } else {
        match namespace_value(ls.last()) {
            Some(v) => line_namespaces(ls.drop_last()).push(v),
            None => line_namespaces(ls.drop_last()),
        }
    }
}

pub open spec fn doc_namespaces(docs: Seq<Seq<char>>) -> Seq<Seq<char>>
    decreases docs.len(),
{
    if docs.len() == 0 {
        Seq::<Seq<char>>::empty()
    } else {
        doc_namespaces(docs.drop_last()) + line_namespaces(lines(docs.last()))
    }
}

/// Every namespace that a rendered manifest names, in order of appearance:
/// the documents are the pieces between `\n---`, and their lines are read
/// one by one.
pub open spec fn manifest_namespaces(rendered: Seq<char>) -> Seq<Seq<char>> {
    doc_namespaces(split(rendered, "\n---"@))
}

fn line_namespace(line: &Vec<char>, key: &Vec<char>) -> (r: Option<Vec<char>>)
    requires
        key@ == "namespace:"@,
    ensures
        match r {
            Some(v) => namespace_value(line@) == Some(v@),
            None => namespace_value(line@) is None,
        },
{
    let (a, b) = strip_bounds(line, 0, line.len(), &CharClass::Space);
    assert(line@.subrange(0, line.len() as int) =~= line@);
    let ghost t = line@.subrange(a as int, b as int);
    if !(matches_at(line, a, key) && a + key.len() <= b) {
        proof {
            if starts_with(t, key@) {
                assert(t.subrange(0, key.len() as int) =~= line@.subrange(a as int, a + key.len()));
            }
        }
        return None;
    }
    proof {
        assert(t.subrange(0, key.len() as int) =~= line@.subrange(a as int, a + key.len()));
        assert(t.skip(key.len() as int) =~= line@.subrange(a + key.len(), b as int));
    }
    let (c, d) = strip_bounds(line, a + key.len(), b, &CharClass::Space);
    let (e, f) = strip_bounds(line, c, d, &CharClass::Only('"'));
    let (g, h) = strip_bounds(line, e, f, &CharClass::Only('\''));
    if g < h {
        Some(slice_of(line, g, h))
    } else {
        None
    }
}

fn push_namespaces_of_lines(out: &mut Vec<String>, ls: &Vec<Vec<char>>, key: &Vec<char>)
    requires
        key@ == "namespace:"@,
    ensures
        str_views(final(out)@) == str_views(old(out)@) + line_namespaces(views(ls@)),
{
    let mut i: usize = 0;
    while i < ls.len()
        invariant
            i <= ls.len(),
            key@ == "namespace:"@,
            str_views(out@) == str_views(old(out)@) + line_namespaces(views(ls@).take(i as int)),
        decreases ls.len() - i,
    {
        let ghost before = str_views(out@);
        let r = line_namespace(&ls[i], key);
        proof {
            let t = views(ls@).take(i + 1);
            assert(t.drop_last() =~= views(ls@).take(i as int));
            assert(t.last() == ls@[i as int]@);
        }
        match r {
            Some(v) => {
                out.push(string_of(&v));
                assert(str_views(out@) =~= before.push(v@));
            },
            None => {},
        }
        i = i + 1;
        assert(str_views(out@) =~= str_views(old(out)@) + line_namespaces(views(ls@).take(i as int)));
    }
    assert(views(ls@).take(ls.len() as int) =~= views(ls@));
}

/// The namespaces that one rendered manifest names, in order of appearance,
/// repeats included.
pub fn namespaces_in_manifest(rendered: &str) -> (r: Vec<String>)
    ensures
        str_views(r@) == manifest_namespaces(rendered@),
{
    let text = chars_of(rendered);
    let sep = chars_of("\n---");
    proof {
        reveal_strlit("\n---");
    }
    let key = chars_of("namespace:");
    let docs = split_chars(&text, &sep);
    let mut out: Vec<String> = Vec::new();
    let mut i: usize = 0;
    while i < docs.len()
        invariant
            i <= docs.len(),
            key@ == "namespace:"@,
            views(docs@) == split(rendered@, "\n---"@),
            str_views(out@) == doc_namespaces(views(docs@).take(i as int)),
        decreases docs.len() - i,
    {
        let ls = lines_of(&docs[i]);
        push_namespaces_of_lines(&mut out, &ls, &key);
        proof {
            let t = views(docs@).take(i + 1);
            assert(t.drop_last() =~= views(docs@).take(i as int));
            assert(t.last() == docs@[i as int]@);
        }
        i = i + 1;
    }
    assert(views(docs@).take(docs.len() as int) =~= views(docs@));
    out
}

/// The namespaces named across several rendered manifests, in order.
pub open spec fn all_namespaces(rendered: Seq<Seq<char>>) -> Seq<Seq<char>>
    decreases rendered.len(),
{
    if rendered.len() == 0 {
        Seq::<Seq<char>>::empty()
    } else {
        all_namespaces(rendered.drop_last()) + manifest_namespaces(rendered.last())
    }
}

/// The namespaces that the rendered components of a cluster deploy to:
/// each once, in sorted order.
pub fn resolve_component_namespaces(rendered: &Vec<String>) -> (r: Vec<String>)
    ensures
        strictly_sorted(str_views(r@)),
        str_views(r@).to_set() == all_namespaces(str_views(rendered@)).to_set(),
{
    let mut out: Vec<String> = Vec::new();
    let mut i: usize = 0;
    assert(str_views(out@).to_set() =~= Set::<Seq<char>>::empty());
    while i < rendered.len()
        invariant
            i <= rendered.len(),
            strictly_sorted(str_views(out@)),
            str_views(out@).to_set() == all_namespaces(str_views(rendered@).take(i as int)).to_set(),
        decreases rendered.len() - i,
    {
        let found = namespaces_in_manifest(rendered[i].as_str());
        let ghost base = all_namespaces(str_views(rendered@).take(i as int));
        let mut j: usize = 0;
        while j < found.len()
            invariant
                j <= found.len(),
                strictly_sorted(str_views(out@)),
                str_views(out@).to_set() == (base + str_views(found@).take(j as int)).to_set(),
            decreases found.len() - j,
        {
            let ghost before = str_views(out@).to_set();
            insert_unique_sorted(&mut out, found[j].clone());
            proof {
                let a = base + str_views(found@).take(j as int);
                let b = base + str_views(found@).take(j + 1);
                assert(b =~= a.push(found@[j as int]@));
                broadcast use vstd::seq_lib::group_seq_properties;
                assert(b.to_set() =~= a.to_set().insert(found@[j as int]@));
            }
            j = j + 1;
        }
        proof {
            let t = str_views(rendered@).take(i + 1);
            assert(t.drop_last() =~= str_views(rendered@).take(i as int));
            assert(t.last() == rendered@[i as int]@);
            assert(str_views(found@).take(found.len() as int) =~= str_views(found@));
        }
        i = i + 1;
    }
    assert(str_views(rendered@).take(rendered.len() as int) =~= str_views(rendered@));
    out
}


// ───────────────────────────── secrets ─────────────────────────────

/// The bootstrap manifest with its secret placeholders filled in:
/// `${OCI_DOCKERCONFIG_JSON}`, `${SPLUNK_HEC_HOST}` and `${SPLUNK_HEC_TOKEN}`,
/// in that order, each replaced by the value given for it (the environment's,
/// or empty where it has none).
pub open spec fn spec_substitute_secrets(
    yaml: Seq<char>,
    dockerconfig: Seq<char>,
    hec_host: Seq<char>,
    hec_token: Seq<char>,
) -> Seq<char> {
    replace_all(
        replace_all(replace_all(yaml, "${OCI_DOCKERCONFIG_JSON}"@, dockerconfig), "${SPLUNK_HEC_HOST}"@, hec_host),
        "${SPLUNK_HEC_TOKEN}"@,
        hec_token,
    )
}

/// The names of the environment variables whose values fill the bootstrap
/// manifest's placeholders, in the order they are filled.
pub fn secret_variables() -> (names: Vec<String>)
    ensures
        str_views(names@) == seq!["OCI_DOCKERCONFIG_JSON"@, "SPLUNK_HEC_HOST"@, "SPLUNK_HEC_TOKEN"@],
{
    let mut names: Vec<String> = Vec::new();
    push_arg(&mut names, "OCI_DOCKERCONFIG_JSON");
    push_arg(&mut names, "SPLUNK_HEC_HOST");
    push_arg(&mut names, "SPLUNK_HEC_TOKEN");
    names
}

pub fn substitute_secrets(yaml: &str, dockerconfig: &str, hec_host: &str, hec_token: &str) -> (r: String)
    ensures
        r@ == spec_substitute_secrets(yaml@, dockerconfig@, hec_host@, hec_token@),
{
    proof {
        reveal_strlit("${OCI_DOCKERCONFIG_JSON}");
        reveal_strlit("${SPLUNK_HEC_HOST}");
        reveal_strlit("${SPLUNK_HEC_TOKEN}");
    }
    let text = chars_of(yaml);
    let p1 = chars_of("${OCI_DOCKERCONFIG_JSON}");
    let p2 = chars_of("${SPLUNK_HEC_HOST}");
    let p3 = chars_of("${SPLUNK_HEC_TOKEN}");
    let v1 = chars_of(dockerconfig);
    let v2 = chars_of(hec_host);
    let v3 = chars_of(hec_token);
    let a = replace_chars(&text, &p1, &v1);
    let b = replace_chars(&a, &p2, &v2);
    let c = replace_chars(&b, &p3, &v3);
    string_of(&c)
}

/// Replacing a pattern that begins with `$` leaves a text without `$` as it was.
pub proof fn lemma_replace_without_dollar(s: Seq<char>, p: Seq<char>, r: Seq<char>)
    requires
        p.len() > 0,
        p[0] == '$',
        !s.contains('$'),
    ensures
        replace_all(s, p, r) == s,
    decreases s.len(),
{
    if s.len() >= p.len() {
        assert(s.take(p.len() as int)[0] == s[0]);
        assert(s.take(p.len() as int) != p);
        assert(!s.drop_first().contains('$')) by {
            if s.drop_first().contains('$') {
                let k = choose|k: int| 0 <= k < s.drop_first().len() && s.drop_first()[k] == '$';
                assert(s[k + 1] == '$');
            }
        }
        lemma_replace_without_dollar(s.drop_first(), p, r);
        assert(seq![s[0]] + s.drop_first() =~= s);
    }
}

/// A manifest without any `$` has no placeholder and comes out unchanged.
pub proof fn law_substitution_keeps_text_without_placeholders(
    yaml: Seq<char>,
    dockerconfig: Seq<char>,
    hec_host: Seq<char>,
    hec_token: Seq<char>,
)
    requires
        !yaml.contains('$'),
    ensures
        spec_substitute_secrets(yaml, dockerconfig, hec_host, hec_token) == yaml,
{
    reveal_strlit("${OCI_DOCKERCONFIG_JSON}");
    reveal_strlit("${SPLUNK_HEC_HOST}");
    reveal_strlit("${SPLUNK_HEC_TOKEN}");
    lemma_replace_without_dollar(yaml, "${OCI_DOCKERCONFIG_JSON}"@, dockerconfig);
    lemma_replace_without_dollar(yaml, "${SPLUNK_HEC_HOST}"@, hec_host);
    lemma_replace_without_dollar(yaml, "${SPLUNK_HEC_TOKEN}"@, hec_token);
}

// ───────────────────────────── Flux ─────────────────────────────

/// The registry Flux images are pulled from: `<registry>/fluxcd`, the
/// registry being the command-line one or else `OCI_REGISTRY`'s value.
pub fn flux_registry(registry: Option<String>, env_registry: Option<String>) -> (r: Option<String>)
    ensures
        registry is Some ==> r is Some && r->0@ == registry->0@ + "/fluxcd"@,
        registry is None && env_registry is Some ==> r is Some && r->0@ == env_registry->0@ + "/fluxcd"@,
        registry is None && env_registry is None ==> r is None,
{
    let base = match registry {
        Some(r) => r,
        None => match env_registry {
            Some(r) => r,
            None => return None,
        },
    };
    let mut v: Vec<char> = Vec::new();
    append_str(&mut v, base.as_str());
    append_str(&mut v, "/fluxcd");
    Some(string_of(&v))
}

/// The excluded kinds that are not empty, in order.
pub open spec fn nonempty_kinds(kinds: Seq<Seq<char>>) -> Seq<Seq<char>> {
    kinds.filter(|k: Seq<char>| k.len() > 0)
}

pub fn excluded_kinds(kinds: &Vec<String>) -> (r: Vec<String>)
    ensures
        str_views(r@) == nonempty_kinds(str_views(kinds@)),
{
    let mut out: Vec<String> = Vec::new();
    let mut i: usize = 0;
    while i < kinds.len()
        invariant
            i <= kinds.len(),
            str_views(out@) == nonempty_kinds(str_views(kinds@).take(i as int)),
        decreases kinds.len() - i,
    {
        let ghost before = str_views(out@);
        let k = chars_of(kinds[i].as_str());
        if k.len() > 0 {
            out.push(kinds[i].clone());
        }
        proof {
            let t = str_views(kinds@).take(i + 1);
            assert(t.drop_last() =~= str_views(kinds@).take(i as int));
            assert(t.last() == kinds@[i as int]@);
            reveal(Seq::filter);
            assert(str_views(out@) =~= nonempty_kinds(t));
        }
        i = i + 1;
    }
    assert(str_views(kinds@).take(kinds.len() as int) =~= str_views(kinds@));
    out
}

/// How Flux's own manifests are exported for a cluster: the full install
/// with the image automation controllers, from the mirrored registry.
pub fn flux_install_command(namespace: &str, flux_registry: &str) -> (c: CommandLine)
    ensures
        c.program@ == "flux"@,
        str_views(c.args@) == seq![
            "install"@,
            "--export"@,
            "--namespace="@ + namespace@,
            "--components-extra=image-reflector-controller,image-automation-controller"@,
            "--registry="@ + flux_registry@,
            "--image-pull-secret=image-pull-secret"@,
        ],
{
    let mut args: Vec<String> = Vec::new();
    push_arg(&mut args, "install");
    push_arg(&mut args, "--export");
    let mut ns: Vec<char> = Vec::new();
    append_str(&mut ns, "--namespace=");
    append_str(&mut ns, namespace);
    push_owned(&mut args, string_of(&ns));
    push_arg(&mut args, "--components-extra=image-reflector-controller,image-automation-controller");
    let mut reg: Vec<char> = Vec::new();
    append_str(&mut reg, "--registry=");
    append_str(&mut reg, flux_registry);
    push_owned(&mut args, string_of(&reg));
    push_arg(&mut args, "--image-pull-secret=image-pull-secret");
    CommandLine { program: String::from_str("flux"), args }
}

/// How the CRDs of the two controllers that the admin-prep manifest sets up
/// are exported.
pub fn admin_prep_flux_command(namespace: &str, flux_registry: &str) -> (c: CommandLine)
    ensures
        c.program@ == "flux"@,
        str_views(c.args@) == seq![
            "install"@,
            "--export"@,
            "--namespace="@ + namespace@,
            "--components=source-controller,kustomize-controller"@,
            "--registry="@ + flux_registry@,
            "--image-pull-secret=image-pull-secret"@,
        ],
{
    let mut args: Vec<String> = Vec::new();
    push_arg(&mut args, "install");
    push_arg(&mut args, "--export");
    let mut ns: Vec<char> = Vec::new();
    append_str(&mut ns, "--namespace=");
    append_str(&mut ns, namespace);
    push_owned(&mut args, string_of(&ns));
    push_arg(&mut args, "--components=source-controller,kustomize-controller");
    let mut reg: Vec<char> = Vec::new();
    append_str(&mut reg, "--registry=");
    append_str(&mut reg, flux_registry);
    push_owned(&mut args, string_of(&reg));
    push_arg(&mut args, "--image-pull-secret=image-pull-secret");
    CommandLine { program: String::from_str("flux"), args }
}

// ───────────────────────────── inputs ─────────────────────────────

/// What is missing for a bootstrap.
#[derive(PartialEq, Eq, Structural, Clone, Copy, Debug)]
pub enum BootstrapInputError {
    ClusterDirMissing,
    ClusterYamlMissing,
    SchemaMissing,
}

pub fn cluster_yaml_path(cluster_dir: &str) -> (p: String)
    ensures
        p@ == cluster_dir@ + "/cluster.yaml"@,
{
    let mut v: Vec<char> = Vec::new();
    append_str(&mut v, cluster_dir);
    append_str(&mut v, "/cluster.yaml");
    string_of(&v)
}

/// The checks before a bootstrap, in order: the cluster directory, its
/// `cluster.yaml`, then the cluster schema; the first that fails is the error.
pub fn validate_inputs(cluster_dir_exists: bool, cluster_yaml_exists: bool, schema_exists: bool) -> (r: Result<(), BootstrapInputError>)
    ensures
        !cluster_dir_exists ==> r == Err::<(), BootstrapInputError>(BootstrapInputError::ClusterDirMissing),
        cluster_dir_exists && !cluster_yaml_exists ==> r == Err::<(), BootstrapInputError>(BootstrapInputError::ClusterYamlMissing),
        cluster_dir_exists && cluster_yaml_exists && !schema_exists ==> r == Err::<(), BootstrapInputError>(BootstrapInputError::SchemaMissing),
        cluster_dir_exists && cluster_yaml_exists && schema_exists ==> r is Ok,
{
    if !cluster_dir_exists {
        Err(BootstrapInputError::ClusterDirMissing)
    } else if !cluster_yaml_exists {
        Err(BootstrapInputError::ClusterYamlMissing)
    } else if !schema_exists {
        Err(BootstrapInputError::SchemaMissing)
    } else {
        Ok(())
    }
}

/// The message for a failed input check.
pub fn input_error_message(e: BootstrapInputError, cluster_dir: &str) -> (m: String)
    ensures
        e == BootstrapInputError::ClusterDirMissing ==> m@ == "cluster directory not found at "@ + cluster_dir@,
        e == BootstrapInputError::ClusterYamlMissing ==> m@ == "cluster.yaml not found at "@ + cluster_dir@ + "/cluster.yaml"@,
        e == BootstrapInputError::SchemaMissing ==> m@ == "cluster schema not found at "@ + CLUSTER_SCHEMA@,
{
    let mut v: Vec<char> = Vec::new();
    match e {
        BootstrapInputError::ClusterDirMissing => {
            append_str(&mut v, "cluster directory not found at ");
            append_str(&mut v, cluster_dir);
        },
        BootstrapInputError::ClusterYamlMissing => {
            append_str(&mut v, "cluster.yaml not found at ");
            append_str(&mut v, cluster_dir);
            append_str(&mut v, "/cluster.yaml");
        },
        BootstrapInputError::SchemaMissing => {
            append_str(&mut v, "cluster schema not found at ");
            append_str(&mut v, CLUSTER_SCHEMA);
        },
    }
    string_of(&v)
}

// ───────────────────────────── the ytt invocation ─────────────────────────────

/// The overlay files of the cluster's components: for each component whose
/// directory was found (`component_paths[i]`) and holds an `overlay.yaml`
/// (`overlay_present[i]`), that file, in component order.
pub open spec fn spec_component_overlays(paths: Seq<Option<String>>, present: Seq<bool>) -> Seq<Seq<char>>
    decreases paths.len(),
{
    if paths.len() == 0 || present.len() != paths.len() {
        Seq::<Seq<char>>::empty()
    } else {
        let rest = spec_component_overlays(paths.drop_last(), present.drop_last());
        match paths.last() {
            Some(p) => if present.last() {
                rest.push(p@ + "/overlay.yaml"@)
            } else {
                rest
            },
            None => rest,
        }
    }
}

pub fn collect_component_overlays(component_paths: &Vec<Option<String>>, overlay_present: &Vec<bool>) -> (r: Vec<String>)
    requires
        component_paths.len() == overlay_present.len(),
    ensures
        str_views(r@) == spec_component_overlays(component_paths@, overlay_present@),
{
    let mut out: Vec<String> = Vec::new();
    let mut i: usize = 0;
    while i < component_paths.len()
        invariant
            i <= component_paths.len(),
            component_paths.len() == overlay_present.len(),
            str_views(out@) == spec_component_overlays(component_paths@.take(i as int), overlay_present@.take(i as int)),
        decreases component_paths.len() - i,
    {
        let ghost before = str_views(out@);
        match &component_paths[i] {
            Some(p) => {
                if overlay_present[i] {
                    let mut v: Vec<char> = Vec::new();
                    append_str(&mut v, p.as_str());
                    append_str(&mut v, "/overlay.yaml");
                    out.push(string_of(&v));
                    assert(str_views(out@) =~= before.push(p@ + "/overlay.yaml"@));
                }
            },
            None => {},
        }
        proof {
            assert(component_paths@.take(i + 1).drop_last() =~= component_paths@.take(i as int));
            assert(overlay_present@.take(i + 1).drop_last() =~= overlay_present@.take(i as int));
        }
        i = i + 1;
    }
    assert(component_paths@.take(component_paths.len() as int) =~= component_paths@);
    assert(overlay_present@.take(overlay_present.len() as int) =~= overlay_present@);
    out
}

/// The inputs ytt renders a bootstrap manifest from, in order: the cluster
/// schema, the cluster's `cluster.yaml`, the component overlays, the exported
/// Flux install (when written), the shared component sources (when that
/// directory exists) and the cluster's own overlays (when that directory
/// exists).
pub open spec fn spec_bootstrap_ytt_args(
    cluster_dir: Seq<char>,
    component_overlays: Seq<Seq<char>>,
    flux_install: Option<Seq<char>>,
    sources_base_present: bool,
    cluster_overlays_present: bool,
) -> Seq<Seq<char>> {
    seq!["-f"@, CLUSTER_SCHEMA@, "-f"@, cluster_dir + "/cluster.yaml"@] + file_args(component_overlays)
        + match flux_install {
        Some(f) => seq!["-f"@, f],
        None => Seq::<Seq<char>>::empty(),
    } + if sources_base_present {
        seq!["-f"@, BOOTSTRAP_SOURCES_BASE@]
    } else {
        Seq::<Seq<char>>::empty()
    } + if cluster_overlays_present {
        seq!["-f"@, cluster_dir + "/overlays"@]
    } else {
        Seq::<Seq<char>>::empty()
    }
}

pub fn bootstrap_ytt_command(
    cluster_dir: &str,
    component_overlays: &Vec<String>,
    flux_install: Option<String>,
    sources_base_present: bool,
    cluster_overlays_present: bool,
) -> (c: CommandLine)
    ensures
        c.program@ == "ytt"@,
        str_views(c.args@) == spec_bootstrap_ytt_args(
            cluster_dir@,
            str_views(component_overlays@),
            match flux_install { Some(f) => Some(f@), None => None },
            sources_base_present,
            cluster_overlays_present,
        ),
{
    let mut args: Vec<String> = Vec::new();
    push_arg(&mut args, "-f");
    push_arg(&mut args, CLUSTER_SCHEMA);
    push_arg(&mut args, "-f");
    push_owned(&mut args, cluster_yaml_path(cluster_dir));
    push_file_args(&mut args, component_overlays);
    let ghost a1 = str_views(args@);
    match flux_install {
        Some(f) => {
            push_arg(&mut args, "-f");
            push_owned(&mut args, f);
        },
        None => {},
    }
    let ghost a2 = str_views(args@);
    if sources_base_present {
        push_arg(&mut args, "-f");
        push_arg(&mut args, BOOTSTRAP_SOURCES_BASE);
    }
    let ghost a3 = str_views(args@);
    if cluster_overlays_present {
        push_arg(&mut args, "-f");
        let mut v: Vec<char> = Vec::new();
        append_str(&mut v, cluster_dir);
        append_str(&mut v, "/overlays");
        push_owned(&mut args, string_of(&v));
    }
    assert(str_views(args@) =~= spec_bootstrap_ytt_args(
        cluster_dir@,
        str_views(component_overlays@),
        match flux_install { Some(f) => Some(f@), None => None },
        sources_base_present,
        cluster_overlays_present,
    ));
    CommandLine { program: String::from_str("ytt"), args }
}

// ───────────────────────────── the admin-prep manifest ─────────────────────────────

/// The manifest templates of the admin-prep output, with their placeholders
/// `{cluster_name}`, `{ns}`, `{sa}` and `{target}`.
pub struct AdminPrepTemplates {
    pub header: String,
    pub namespace: String,
    pub service_account: String,
    pub source_rbac: String,
    pub kustomize_rbac: String,
    pub deployer_rbac: String,
}

pub open spec fn deployer_blocks(t: Seq<char>, targets: Seq<Seq<char>>, ns: Seq<char>) -> Seq<char>
    decreases targets.len(),
{
    if targets.len() == 0 {
        Seq::<char>::empty()
    } else {
        deployer_blocks(t, targets.drop_last(), ns) + replace_all(replace_all(t, "{target}"@, targets.last()), "{ns}"@, ns)
    }
}

/// The admin-prep manifest: the header, the Flux CRDs, the Flux namespace, a
/// service account for each of the two controllers, their RBAC, and a
/// deployer RBAC block for each namespace the components deploy to.
pub open spec fn spec_admin_prep(
    t: AdminPrepTemplates,
    cluster_name: Seq<char>,
    crds: Seq<char>,
    ns: Seq<char>,
    targets: Seq<Seq<char>>,
) -> Seq<char> {
    replace_all(t.header@, "{cluster_name}"@, cluster_name) + crds + replace_all(t.namespace@, "{ns}"@, ns)
        + replace_all(replace_all(t.service_account@, "{sa}"@, "source-controller"@), "{ns}"@, ns)
        + replace_all(replace_all(t.service_account@, "{sa}"@, "kustomize-controller"@), "{ns}"@, ns)
        + replace_all(t.source_rbac@, "{ns}"@, ns) + replace_all(t.kustomize_rbac@, "{ns}"@, ns)
        + deployer_blocks(t.deployer_rbac@, targets, ns)
}

pub fn generate_admin_prep(
    templates: &AdminPrepTemplates,
    cluster_name: &str,
    crds: &str,
    namespace: &str,
    target_namespaces: &Vec<String>,
) -> (out: String)
    ensures
        out@ == spec_admin_prep(*templates, cluster_name@, crds@, namespace@, str_views(target_namespaces@)),
{
    proof {
        reveal_strlit("{cluster_name}");
        reveal_strlit("{ns}");
        reveal_strlit("{sa}");
        reveal_strlit("{target}");
    }
    let p_cluster = chars_of("{cluster_name}");
    let p_ns = chars_of("{ns}");
    let p_sa = chars_of("{sa}");
    let p_target = chars_of("{target}");
    let ns = chars_of(namespace);
    let mut out: Vec<char> = Vec::new();
    let header = chars_of(templates.header.as_str());
    append_chars(&mut out, &replace_chars(&header, &p_cluster, &chars_of(cluster_name)));
    append_str(&mut out, crds);
    let ns_t = chars_of(templates.namespace.as_str());
    append_chars(&mut out, &replace_chars(&ns_t, &p_ns, &ns));
    let sa_t = chars_of(templates.service_account.as_str());
    let sa1 = replace_chars(&sa_t, &p_sa, &chars_of("source-controller"));
    append_chars(&mut out, &replace_chars(&sa1, &p_ns, &ns));
    let sa2 = replace_chars(&sa_t, &p_sa, &chars_of("kustomize-controller"));
    append_chars(&mut out, &replace_chars(&sa2, &p_ns, &ns));
    let src_t = chars_of(templates.source_rbac.as_str());
    append_chars(&mut out, &replace_chars(&src_t, &p_ns, &ns));
    let kus_t = chars_of(templates.kustomize_rbac.as_str());
    append_chars(&mut out, &replace_chars(&kus_t, &p_ns, &ns));
    let dep_t = chars_of(templates.deployer_rbac.as_str());
    let ghost base = out@;
    let mut i: usize = 0;
    while i < target_namespaces.len()
        invariant
            i <= target_namespaces.len(),
            dep_t@ == templates.deployer_rbac@,
            p_target@ == "{target}"@,
            p_ns@ == "{ns}"@,
            p_target.len() > 0,
            p_ns.len() > 0,
            ns@ == namespace@,
            out@ == base + deployer_blocks(dep_t@, str_views(target_namespaces@).take(i as int), ns@),
        decreases target_namespaces.len() - i,
    {
        let tgt = chars_of(target_namespaces[i].as_str());
        let d1 = replace_chars(&dep_t, &p_target, &tgt);
        append_chars(&mut out, &replace_chars(&d1, &p_ns, &ns));
        proof {
            let t = str_views(target_namespaces@).take(i + 1);
            assert(t.drop_last() =~= str_views(target_namespaces@).take(i as int));
            assert(t.last() == target_namespaces@[i as int]@);
        }
        i = i + 1;
    }
    assert(str_views(target_namespaces@).take(target_namespaces.len() as int) =~= str_views(target_namespaces@));
    string_of(&out)
}

// ───────────────────────────── the run ─────────────────────────────

/// The Flux line of a bootstrap run: whether Flux is installed, and where.
pub fn flux_summary(flux: &crate::types::FluxConfig) -> (s: String)
    ensures
        s@ == (if flux.install { "true"@ } else { "false"@ }) + " (ns: "@ + flux.namespace@ + ")"@,
{
    let mut v: Vec<char> = Vec::new();
    if flux.install {
        append_str(&mut v, "true");
    } else {
        append_str(&mut v, "false");
    }
    append_str(&mut v, " (ns: ");
    append_str(&mut v, flux.namespace.as_str());
    append_str(&mut v, ")");
    string_of(&v)
}

/// How a bootstrap manifest is deployed: kubectl must reach the cluster,
/// then the manifest is applied from standard input.
pub fn deploy_bootstrap() -> (c: Vec<CommandLine>)
    ensures
        c@.len() == 2,
        c@[0].program@ == "kubectl"@,
        str_views(c@[0].args@) == seq!["cluster-info"@],
        c@[1].program@ == "kubectl"@,
        str_views(c@[1].args@) == seq!["apply"@, "-f"@, "-"@],
{
    let mut a: Vec<String> = Vec::new();
    push_arg(&mut a, "cluster-info");
    let mut b: Vec<String> = Vec::new();
    push_arg(&mut b, "apply");
    push_arg(&mut b, "-f");
    push_arg(&mut b, "-");
    let mut c: Vec<CommandLine> = Vec::new();
    c.push(CommandLine { program: String::from_str("kubectl"), args: a });
    c.push(CommandLine { program: String::from_str("kubectl"), args: b });
    c
}

}
