//! The build matrix: which components each cluster builds, read from what
//! ytt renders of the cluster's configuration.
use vstd::prelude::*;
use crate::commands::{push_arg, spec_normalize_path, normalize_path, CommandLine};
use crate::json::{array_of, as_array, as_str, get, member, str_or, text_of, Json};
use crate::paths::{BUILD_MATRIX_DIR, CLUSTER_SCHEMA, COMPONENTS_DIR, RGDS_DIR};
use crate::text::{
    append_str, chars_of, slice_of, split, split_chars, str_views, string_of, strip_bounds,
    strip_trail, trim, views, CharClass,
};
use crate::types::BuildMatrixEntry;

verus! {

/// How ytt renders a cluster's matrix documents.
pub fn matrix_command(cluster_yaml: &str) -> (c: CommandLine)
    ensures
        c.program@ == "ytt"@,
        str_views(c.args@) == seq!["-f"@, CLUSTER_SCHEMA@, "-f"@, cluster_yaml@, "-f"@, BUILD_MATRIX_DIR@],
{
    let mut args: Vec<String> = Vec::new();
    push_arg(&mut args, "-f");
    push_arg(&mut args, CLUSTER_SCHEMA);
    push_arg(&mut args, "-f");
    push_arg(&mut args, cluster_yaml);
    push_arg(&mut args, "-f");
    push_arg(&mut args, BUILD_MATRIX_DIR);
    CommandLine { program: String::from_str("ytt"), args }
}

/// The documents of the rendered matrix: the pieces between `\n---`,
/// trimmed, the empty ones dropped. The first is the cluster header, each
/// other one a component.
pub open spec fn spec_matrix_documents(output: Seq<char>) -> Seq<Seq<char>> {
    split(output, "\n---"@).map_values(|d: Seq<char>| trim(d)).filter(|d: Seq<char>| d.len() > 0)
}

pub fn matrix_documents(output: &str) -> (docs: Vec<String>)
    ensures
        str_views(docs@) == spec_matrix_documents(output@),
{
    proof {
        reveal_strlit("\n---");
    }
    let pieces = split_chars(&chars_of(output), &chars_of("\n---"));
    let ghost trimmed = views(pieces@).map_values(|d: Seq<char>| trim(d));
    let mut out: Vec<String> = Vec::new();
    let mut i: usize = 0;
    while i < pieces.len()
        invariant
            i <= pieces.len(),
            trimmed == views(pieces@).map_values(|d: Seq<char>| trim(d)),
            str_views(out@) == trimmed.take(i as int).filter(|d: Seq<char>| d.len() > 0),
        decreases pieces.len() - i,
    {
        let p = &pieces[i];
        let (a, b) = strip_bounds(p, 0, p.len(), &CharClass::Space);
        assert(p@.subrange(0, p.len() as int) =~= p@);
        let ghost before = str_views(out@);
        if a < b {
            out.push(string_of(&slice_of(p, a, b)));
        }
        proof {
            assert(trimmed[i as int] == trim(p@));
            let t = trimmed.take(i + 1);
            assert(t.drop_last() =~= trimmed.take(i as int));
            assert(t.last() == trim(p@));
            reveal(Seq::filter);
            assert(str_views(out@) =~= t.filter(|d: Seq<char>| d.len() > 0));
        }
        i = i + 1;
    }
    assert(trimmed.take(pieces.len() as int) =~= trimmed);
    out
}

/// What the matrix documents lack.
#[derive(PartialEq, Eq, Structural, Clone, Copy, Debug)]
pub enum MatrixError {
    EmptyOutput,
    MissingClusterName,
    MissingComponentName,
    MissingComponentId,
}

impl MatrixError {
    pub fn message(&self) -> (m: String)
        ensures
            *self == MatrixError::EmptyOutput ==> m@ == "empty matrix output"@,
            *self == MatrixError::MissingClusterName ==> m@ == "missing cluster_name"@,
            *self == MatrixError::MissingComponentName ==> m@ == "missing component name"@,
            *self == MatrixError::MissingComponentId ==> m@ == "missing component id"@,
    {
        match self {
            MatrixError::EmptyOutput => String::from_str("empty matrix output"),
            MatrixError::MissingClusterName => String::from_str("missing cluster_name"),
            MatrixError::MissingComponentName => String::from_str("missing component name"),
            MatrixError::MissingComponentId => String::from_str("missing component id"),
        }
    }
}

/// The non-empty strings of a list, in order.
pub open spec fn overlay_ids(items: Seq<Json>) -> Seq<Seq<char>>
    decreases items.len(),
{
    if items.len() == 0 {
        Seq::<Seq<char>>::empty()
    } else {
        match as_str(items.last()) {
            Some(s) => if s.len() > 0 {
                overlay_ids(items.drop_last()).push(s)
            } else {
                overlay_ids(items.drop_last())
            },
            None => overlay_ids(items.drop_last()),
        }
    }
}

/// The cluster's name and overlay ids, from the header document.
pub fn cluster_header(header: &Json) -> (r: Result<(String, Vec<String>), MatrixError>)
    ensures
        match r {
            Ok((name, overlays)) => as_str(get(*header, "cluster_name"@)) == Some(name@)
                && str_views(overlays@) == match as_array(get(*header, "overlays"@)) {
                    Some(items) => overlay_ids(items),
                    None => Seq::<Seq<char>>::empty(),
                },
            Err(e) => as_str(get(*header, "cluster_name"@)) is None && e == MatrixError::MissingClusterName,
        },
{
    let name = match text_of(member(Some(header), "cluster_name")) {
        Some(n) => n,
        None => return Err(MatrixError::MissingClusterName),
    };
    let mut overlays: Vec<String> = Vec::new();
    match array_of(member(Some(header), "overlays")) {
        Some(items) => {
            let mut i: usize = 0;
            while i < items.len()
                invariant
                    i <= items.len(),
                    str_views(overlays@) == overlay_ids(items@.take(i as int)),
                decreases items.len() - i,
            {
                proof {
                    assert(items@.take(i + 1).drop_last() =~= items@.take(i as int));
                    assert(items@.take(i + 1).last() == items@[i as int]);
                }
                match text_of(Some(&items[i])) {
                    Some(s) => {
                        if chars_of(s.as_str()).len() > 0 {
                            let ghost before = str_views(overlays@);
                            let ghost sv = s@;
                            overlays.push(s);
                            assert(str_views(overlays@) =~= before.push(sv));
                        }
                    },
                    None => {},
                }
                i = i + 1;
            }
            assert(items@.take(items.len() as int) =~= items@);
        },
        None => {},
    }
    Ok((name, overlays))
}

/// A component document's name, instance id and namespace (the id when it
/// names none).
pub fn component_ref(doc: &Json) -> (r: Result<(String, String, String), MatrixError>)
    ensures
        match r {
            Ok((name, id, ns)) => {
                &&& as_str(get(get(*doc, "component"@), "name"@)) == Some(name@)
                &&& as_str(get(get(*doc, "component"@), "id"@)) == Some(id@)
                &&& ns@ == str_or(get(get(*doc, "component"@), "namespace"@), id@)
            },
            Err(e) => {
                ||| (as_str(get(get(*doc, "component"@), "name"@)) is None && e == MatrixError::MissingComponentName)
                ||| (as_str(get(get(*doc, "component"@), "name"@)) is Some && as_str(get(get(*doc, "component"@), "id"@)) is None
                    && e == MatrixError::MissingComponentId)
            },
        },
{
    let c = member(Some(doc), "component");
    let name = match text_of(member(c, "name")) {
        Some(n) => n,
        None => return Err(MatrixError::MissingComponentName),
    };
    let id = match text_of(member(c, "id")) {
        Some(i) => i,
        None => return Err(MatrixError::MissingComponentId),
    };
    let ns = match text_of(member(c, "namespace")) {
        Some(n) => n,
        None => id.clone(),
    };
    Ok((name, id, ns))
}

/// The build entry of one component of a cluster: built to
/// `<id>-<cluster_name>`, with the component document as its data values.
pub fn matrix_entry(
    cluster_dir: &str,
    cluster_name: &str,
    overlays: &Vec<String>,
    artifact_path: String,
    component_id: &str,
    component_namespace: &str,
    document: &str,
) -> (e: BuildMatrixEntry)
    ensures
        e.artifact_path == artifact_path,
        e.cluster@ == cluster_dir@,
        e.cluster_name@ == cluster_name@,
        e.target_name@ == component_id@ + "-"@ + cluster_name@,
        e.component_id@ == component_id@,
        e.component_namespace@ == component_namespace@,
        e.component_data_values_yaml@ == document@,
        str_views(e.overlays@) == str_views(overlays@),
{
    let mut t: Vec<char> = Vec::new();
    append_str(&mut t, component_id);
    append_str(&mut t, "-");
    append_str(&mut t, cluster_name);
    let mut ov: Vec<String> = Vec::new();
    let mut i: usize = 0;
    while i < overlays.len()
        invariant
            i <= overlays.len(),
            str_views(ov@) == str_views(overlays@).take(i as int),
        decreases overlays.len() - i,
    {
        let ghost before = str_views(ov@);
        let o = overlays[i].clone();
        ov.push(o);
        assert(str_views(ov@) =~= before.push(overlays@[i as int]@));
        assert(str_views(overlays@).take(i + 1) =~= str_views(overlays@).take(i as int).push(overlays@[i as int]@));
        i = i + 1;
    }
    assert(str_views(overlays@).take(overlays.len() as int) =~= str_views(overlays@));
    BuildMatrixEntry {
        artifact_path,
        cluster: String::from_str(cluster_dir),
        cluster_name: String::from_str(cluster_name),
        target_name: string_of(&t),
        component_id: String::from_str(component_id),
        component_namespace: String::from_str(component_namespace),
        component_data_values_yaml: String::from_str(document),
        overlays: ov,
    }
}

/// What the file system holds at a candidate component directory.
pub struct DirProbe {
    pub is_dir: bool,
    pub has_base_dir: bool,
    pub has_component_file: bool,
}

/// A directory holds a component when it has a `base` directory or a
/// `component.yaml`.
pub open spec fn holds_component(p: DirProbe) -> bool {
    p.is_dir && (p.has_base_dir || p.has_component_file)
}

/// Where a component may live: under the components, then under the
/// resource group definitions.
pub fn component_path_candidates(component_name: &str) -> (r: (String, String))
    ensures
        r.0@ == COMPONENTS_DIR@ + "/"@ + component_name@,
        r.1@ == RGDS_DIR@ + "/"@ + component_name@,
{
    let mut a: Vec<char> = Vec::new();
    append_str(&mut a, COMPONENTS_DIR);
    append_str(&mut a, "/");
    append_str(&mut a, component_name);
    let mut b: Vec<char> = Vec::new();
    append_str(&mut b, RGDS_DIR);
    append_str(&mut b, "/");
    append_str(&mut b, component_name);
    (string_of(&a), string_of(&b))
}

/// The first candidate directory that holds the component.
pub fn find_component_path(component_name: &str, components_probe: &DirProbe, rgds_probe: &DirProbe) -> (r: Option<String>)
    ensures
        holds_component(*components_probe) ==> r is Some && r->0@ == COMPONENTS_DIR@ + "/"@ + component_name@,
        !holds_component(*components_probe) && holds_component(*rgds_probe) ==> r is Some && r->0@ == RGDS_DIR@ + "/"@ + component_name@,
        !holds_component(*components_probe) && !holds_component(*rgds_probe) ==> r is None,
{
    let (a, b) = component_path_candidates(component_name);
    if components_probe.is_dir && (components_probe.has_base_dir || components_probe.has_component_file) {
        Some(a)
    } else if rgds_probe.is_dir && (rgds_probe.has_base_dir || rgds_probe.has_component_file) {
        Some(b)
    } else {
        None
    }
}

/// A cluster directory as the matrix records it: forward slashes, no
/// trailing slash.
pub fn normalized_cluster_dir(cluster_dir: &str) -> (d: String)
    ensures
        d@ == strip_trail(spec_normalize_path(cluster_dir@), CharClass::Only('/')),
{
    let n = chars_of(normalize_path(cluster_dir).as_str());
    let b = crate::text::trail_bound(&n, 0, n.len(), &CharClass::Only('/'));
    assert(n@.subrange(0, n.len() as int) =~= n@);
    string_of(&slice_of(&n, 0, b))
}

}
