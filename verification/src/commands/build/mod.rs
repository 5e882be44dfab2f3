//! Building component artifacts: which overlay directories apply, how ytt,
//! helm and kbld are invoked, which entries a build covers, and how the
//! results are pushed and reported.
use vstd::prelude::*;
use crate::commands::{file_args, push_arg, push_file_args, push_owned, CommandLine};
use crate::paths::{BUILD_PRERENDER_DIR, CLUSTER_SCHEMA, DIST_DIR};
use crate::text::{append_str, decimal, push_decimal, sort_strings, sorted, str_views, string_of};
use crate::types::{BuildMatrixEntry, HelmConfig};

verus! {

/// The command-line options of `build`.
pub struct BuildArgs {
    pub artifact: Option<String>,
    pub cluster: Option<String>,
    pub id: Option<String>,
    pub all: bool,
    pub push: bool,
    pub registry: Option<String>,
    pub version: Option<String>,
    pub repo_url: Option<String>,
    pub ref_name: Option<String>,
    pub sha: Option<String>,
}

// ───────────────────────────── overlay directories ─────────────────────────────

/// `<artifact>/overlays/<id>/<stage>`.
pub open spec fn overlay_dir(artifact: Seq<char>, id: Seq<char>, stage: Seq<char>) -> Seq<char> {
    artifact + "/overlays/"@ + id + "/"@ + stage
}

/// The overlay directories of one stage that exist, in overlay order.
pub open spec fn present_overlay_dirs(
    artifact: Seq<char>,
    ids: Seq<Seq<char>>,
    present: Seq<bool>,
    stage: Seq<char>,
) -> Seq<Seq<char>>
    decreases ids.len(),
{
    if ids.len() == 0 || present.len() != ids.len() {
        Seq::<Seq<char>>::empty()
    } else {
        let rest = present_overlay_dirs(artifact, ids.drop_last(), present.drop_last(), stage);
        if present.last() {
            rest.push(overlay_dir(artifact, ids.last(), stage))
        } else {
            rest
        }
    }
}

/// The pre-render and post-render directories that an overlay id would use.
pub fn overlay_dir_paths(artifact_path: &str, id: &str) -> (r: (String, String))
    ensures
        r.0@ == overlay_dir(artifact_path@, id@, "pre-render"@),
        r.1@ == overlay_dir(artifact_path@, id@, "post-render"@),
{
    let mut pre: Vec<char> = Vec::new();
    append_str(&mut pre, artifact_path);
    append_str(&mut pre, "/overlays/");
    append_str(&mut pre, id);
    append_str(&mut pre, "/");
    append_str(&mut pre, "pre-render");
    let mut post: Vec<char> = Vec::new();
    append_str(&mut post, artifact_path);
    append_str(&mut post, "/overlays/");
    append_str(&mut post, id);
    append_str(&mut post, "/");
    append_str(&mut post, "post-render");
    (string_of(&pre), string_of(&post))
}

/// The pre-render and post-render overlay directories of an artifact for the
/// cluster's overlay ids, in id order: `pre_present[i]` and `post_present[i]`
/// tell whether the directories of `overlays[i]` exist.
pub fn collect_overlay_dirs(
    artifact_path: &str,
    overlays: &Vec<String>,
    pre_present: &Vec<bool>,
    post_present: &Vec<bool>,
) -> (r: (Vec<String>, Vec<String>))
    requires
        pre_present.len() == overlays.len(),
        post_present.len() == overlays.len(),
    ensures
        str_views(r.0@) == present_overlay_dirs(artifact_path@, str_views(overlays@), pre_present@, "pre-render"@),
        str_views(r.1@) == present_overlay_dirs(artifact_path@, str_views(overlays@), post_present@, "post-render"@),
{
    let mut pre: Vec<String> = Vec::new();
    let mut post: Vec<String> = Vec::new();
    let mut i: usize = 0;
    while i < overlays.len()
        invariant
            i <= overlays.len(),
            pre_present.len() == overlays.len(),
            post_present.len() == overlays.len(),
            str_views(pre@) == present_overlay_dirs(artifact_path@, str_views(overlays@).take(i as int), pre_present@.take(i as int), "pre-render"@),
            str_views(post@) == present_overlay_dirs(artifact_path@, str_views(overlays@).take(i as int), post_present@.take(i as int), "post-render"@),
        decreases overlays.len() - i,
    {
        let (a, b) = overlay_dir_paths(artifact_path, overlays[i].as_str());
        let ghost pre0 = str_views(pre@);
        let ghost post0 = str_views(post@);
        if pre_present[i] {
            pre.push(a);
            assert(str_views(pre@) =~= pre0.push(overlay_dir(artifact_path@, overlays@[i as int]@, "pre-render"@)));
        }
        if post_present[i] {
            post.push(b);
            assert(str_views(post@) =~= post0.push(overlay_dir(artifact_path@, overlays@[i as int]@, "post-render"@)));
        }
        proof {
            let t = str_views(overlays@).take(i + 1);
            assert(t.drop_last() =~= str_views(overlays@).take(i as int));
            assert(t.last() == overlays@[i as int]@);
            assert(pre_present@.take(i + 1).drop_last() =~= pre_present@.take(i as int));
            assert(post_present@.take(i + 1).drop_last() =~= post_present@.take(i as int));
        }
        i = i + 1;
    }
    assert(str_views(overlays@).take(overlays.len() as int) =~= str_views(overlays@));
    assert(pre_present@.take(overlays.len() as int) =~= pre_present@);
    assert(post_present@.take(overlays.len() as int) =~= post_present@);
    (pre, post)
}

// ───────────────────────────── ytt, helm, kbld ─────────────────────────────

/// How ytt merges a component definition with the cluster's data values and
/// the pre-render overlays, into the merged component definition.
pub fn apply_prerender_overlays(
    component_file: &str,
    cluster_file: &str,
    overlay_dirs: &Vec<String>,
    data_values_path: &str,
) -> (c: CommandLine)
    ensures
        c.program@ == "ytt"@,
        str_views(c.args@) == seq![
            "-f"@,
            CLUSTER_SCHEMA@,
            "-f"@,
            cluster_file@,
            "-f"@,
            component_file@,
            "-f"@,
            BUILD_PRERENDER_DIR@,
            "--data-values-file"@,
            data_values_path@,
        ] + file_args(str_views(overlay_dirs@)),
{
    let mut args: Vec<String> = Vec::new();
    push_arg(&mut args, "-f");
    push_arg(&mut args, CLUSTER_SCHEMA);
    push_arg(&mut args, "-f");
    push_arg(&mut args, cluster_file);
    push_arg(&mut args, "-f");
    push_arg(&mut args, component_file);
    push_arg(&mut args, "-f");
    push_arg(&mut args, BUILD_PRERENDER_DIR);
    push_arg(&mut args, "--data-values-file");
    push_arg(&mut args, data_values_path);
    push_file_args(&mut args, overlay_dirs);
    CommandLine { program: String::from_str("ytt"), args }
}

/// How ytt renders the final manifest of an artifact: the rendered manifests
/// with the cluster's data values, the component's base manifests (when it
/// has a `base` directory), the post-render overlays, and the cluster's own
/// overlays (when that directory exists).
pub fn apply_postrender_overlays(
    manifests_path: &str,
    cluster_file: &str,
    cluster_dir: &str,
    base_dir: Option<String>,
    overlay_dirs: &Vec<String>,
    data_values_path: &str,
    cluster_overlays_present: bool,
) -> (c: CommandLine)
    ensures
        c.program@ == "ytt"@,
        str_views(c.args@) == seq![
            "--ignore-unknown-comments"@,
            "-f"@,
            CLUSTER_SCHEMA@,
            "-f"@,
            cluster_file@,
            "-f"@,
            manifests_path@,
            "--data-values-file"@,
            data_values_path@,
        ] + match base_dir {
            Some(b) => seq!["-f"@, b@],
            None => Seq::<Seq<char>>::empty(),
        } + file_args(str_views(overlay_dirs@)) + if cluster_overlays_present {
            seq!["-f"@, cluster_dir@ + "/overlays"@]
        } else {
            Seq::<Seq<char>>::empty()
        },
{
    let mut args: Vec<String> = Vec::new();
    push_arg(&mut args, "--ignore-unknown-comments");
    push_arg(&mut args, "-f");
    push_arg(&mut args, CLUSTER_SCHEMA);
    push_arg(&mut args, "-f");
    push_arg(&mut args, cluster_file);
    push_arg(&mut args, "-f");
    push_arg(&mut args, manifests_path);
    push_arg(&mut args, "--data-values-file");
    push_arg(&mut args, data_values_path);
    let ghost a0 = str_views(args@);
    match base_dir {
        Some(b) => {
            push_arg(&mut args, "-f");
            push_owned(&mut args, b);
        },
        None => {},
    }
    let ghost a1 = str_views(args@);
    push_file_args(&mut args, overlay_dirs);
    let ghost a2 = str_views(args@);
    if cluster_overlays_present {
        push_arg(&mut args, "-f");
        let mut v: Vec<char> = Vec::new();
        append_str(&mut v, cluster_dir);
        append_str(&mut v, "/overlays");
        push_owned(&mut args, string_of(&v));
    }
    CommandLine { program: String::from_str("ytt"), args }
}

/// How image tags are resolved to digests: kbld reads the manifest on its
/// standard input and writes it back with digests.
pub fn resolve_image_digests() -> (c: CommandLine)
    ensures
        c.program@ == "kbld"@,
        str_views(c.args@) == seq!["-f"@, "-"@],
{
    let mut args: Vec<String> = Vec::new();
    push_arg(&mut args, "-f");
    push_arg(&mut args, "-");
    CommandLine { program: String::from_str("kbld"), args }
}

/// The chart a Helm component is pulled from: the resolved chart reference
/// when there is one, else the source repository, followed by the chart name.
pub open spec fn spec_chart_ref(helm: HelmConfig) -> Seq<char> {
    (if helm.resolved_chart_ref@.len() == 0 {
        helm.source_repo@
    } else {
        helm.resolved_chart_ref@
    }) + "/"@ + helm.chart@
}

pub fn chart_ref(helm: &HelmConfig) -> (r: String)
    ensures
        r@ == spec_chart_ref(*helm),
{
    let mut v: Vec<char> = Vec::new();
    let resolved = crate::text::chars_of(helm.resolved_chart_ref.as_str());
    if resolved.len() == 0 {
        append_str(&mut v, helm.source_repo.as_str());
    } else {
        append_str(&mut v, helm.resolved_chart_ref.as_str());
    }
    append_str(&mut v, "/");
    append_str(&mut v, helm.chart.as_str());
    string_of(&v)
}

/// The namespace a chart is rendered into: the chart's own, else the
/// component's.
pub fn helm_namespace(helm: &HelmConfig, component_namespace: &str) -> (ns: String)
    ensures
        helm.namespace is Some ==> ns@ == helm.namespace->0@,
        helm.namespace is None ==> ns@ == component_namespace@,
{
    match &helm.namespace {
        Some(n) => n.clone(),
        None => String::from_str(component_namespace),
    }
}

/// How helm renders a chart: the release, the chart archive, the namespace,
/// the values file, then the component's extra flags.
pub fn helm_template_command(
    release_name: &str,
    chart_path: &str,
    namespace: &str,
    values_file: &str,
    flags: &Vec<String>,
) -> (c: CommandLine)
    ensures
        c.program@ == "helm"@,
        str_views(c.args@) == seq![
            "template"@,
            release_name@,
            chart_path@,
            "--namespace"@,
            namespace@,
            "--values"@,
            values_file@,
        ] + str_views(flags@),
{
    let mut args: Vec<String> = Vec::new();
    push_arg(&mut args, "template");
    push_arg(&mut args, release_name);
    push_arg(&mut args, chart_path);
    push_arg(&mut args, "--namespace");
    push_arg(&mut args, namespace);
    push_arg(&mut args, "--values");
    push_arg(&mut args, values_file);
    let ghost base = str_views(args@);
    let mut i: usize = 0;
    while i < flags.len()
        invariant
            i <= flags.len(),
            str_views(args@) == base + str_views(flags@).take(i as int),
        decreases flags.len() - i,
    {
        push_owned(&mut args, flags[i].clone());
        assert(str_views(flags@).take(i + 1) =~= str_views(flags@).take(i as int).push(flags@[i as int]@));
        i = i + 1;
    }
    assert(str_views(flags@).take(flags.len() as int) =~= str_views(flags@));
    CommandLine { program: String::from_str("helm"), args }
}

// ───────────────────────────── inputs and outputs ─────────────────────────────

/// What is missing for an artifact build.
#[derive(PartialEq, Eq, Structural, Clone, Copy, Debug)]
pub enum BuildInputError {
    ArtifactDirMissing,
    ClusterDirMissing,
}

impl BuildInputError {
    /// The error as text, for an entry's artifact and cluster directories.
    pub fn message(&self, artifact_path: &str, cluster_dir: &str) -> (m: String)
        ensures
            *self == BuildInputError::ArtifactDirMissing ==> m@ == "artifact directory not found at "@ + artifact_path@,
            *self == BuildInputError::ClusterDirMissing ==> m@ == "cluster directory not found at "@ + cluster_dir@,
    {
        let mut v: Vec<char> = Vec::new();
        match self {
            BuildInputError::ArtifactDirMissing => {
                append_str(&mut v, "artifact directory not found at ");
                append_str(&mut v, artifact_path);
            },
            BuildInputError::ClusterDirMissing => {
                append_str(&mut v, "cluster directory not found at ");
                append_str(&mut v, cluster_dir);
            },
        }
        string_of(&v)
    }
}

/// The artifact directory is checked first, then the cluster directory.
pub fn check_build_inputs(artifact_dir_exists: bool, cluster_dir_exists: bool) -> (r: Result<(), BuildInputError>)
    ensures
        !artifact_dir_exists ==> r == Err::<(), BuildInputError>(BuildInputError::ArtifactDirMissing),
        artifact_dir_exists && !cluster_dir_exists ==> r == Err::<(), BuildInputError>(BuildInputError::ClusterDirMissing),
        artifact_dir_exists && cluster_dir_exists ==> r is Ok,
{
    if !artifact_dir_exists {
        Err(BuildInputError::ArtifactDirMissing)
    } else if !cluster_dir_exists {
        Err(BuildInputError::ClusterDirMissing)
    } else {
        Ok(())
    }
}

/// Where a built artifact is written: `dist/<target>.yaml`.
pub open spec fn spec_dist_path(target: Seq<char>) -> Seq<char> {
    DIST_DIR@ + "/"@ + target + ".yaml"@
}

pub fn dist_output_path(target_name: &str) -> (p: String)
    ensures
        p@ == spec_dist_path(target_name@),
{
    let mut v: Vec<char> = Vec::new();
    append_str(&mut v, DIST_DIR);
    append_str(&mut v, "/");
    append_str(&mut v, target_name);
    append_str(&mut v, ".yaml");
    string_of(&v)
}

/// The dist files of the entries, in sorted order.
pub fn dist_manifest_paths(entries: &Vec<BuildMatrixEntry>) -> (r: Vec<String>)
    ensures
        sorted(str_views(r@)),
        str_views(r@).to_multiset() == entries@.map_values(|e: BuildMatrixEntry| spec_dist_path(e.target_name@)).to_multiset(),
{
    let mut paths: Vec<String> = Vec::new();
    let mut i: usize = 0;
    while i < entries.len()
        invariant
            i <= entries.len(),
            str_views(paths@) == entries@.take(i as int).map_values(|e: BuildMatrixEntry| spec_dist_path(e.target_name@)),
        decreases entries.len() - i,
    {
        let p = dist_output_path(entries[i].target_name.as_str());
        let ghost before = str_views(paths@);
        paths.push(p);
        assert(str_views(paths@) =~= before.push(p@));
        assert(entries@.take(i + 1).map_values(|e: BuildMatrixEntry| spec_dist_path(e.target_name@)) =~= before.push(spec_dist_path(entries@[i as int].target_name@)));
        i = i + 1;
    }
    assert(entries@.take(entries.len() as int) =~= entries@);
    sort_strings(&paths)
}

/// What `build` prints of the dist files: each non-empty one after a `---`
/// line.
pub open spec fn spec_dist_stream(contents: Seq<Seq<char>>) -> Seq<char>
    decreases contents.len(),
{
    if contents.len() == 0 {
        Seq::<char>::empty()
    } else {
        spec_dist_stream(contents.drop_last()) + if contents.last().len() > 0 {
            "---\n"@ + contents.last()
        } else {
            Seq::<char>::empty()
        }
    }
}

pub fn dist_stream(contents: &Vec<String>) -> (out: String)
    ensures
        out@ == spec_dist_stream(str_views(contents@)),
{
    let mut v: Vec<char> = Vec::new();
    let mut i: usize = 0;
    while i < contents.len()
        invariant
            i <= contents.len(),
            v@ == spec_dist_stream(str_views(contents@).take(i as int)),
        decreases contents.len() - i,
    {
        let c = crate::text::chars_of(contents[i].as_str());
        if c.len() > 0 {
            append_str(&mut v, "---\n");
            crate::text::append_chars(&mut v, &c);
        }
        proof {
            let t = str_views(contents@).take(i + 1);
            assert(t.drop_last() =~= str_views(contents@).take(i as int));
            assert(t.last() == contents@[i as int]@);
        }
        i = i + 1;
    }
    assert(str_views(contents@).take(contents.len() as int) =~= str_views(contents@));
    string_of(&v)
}

// ───────────────────────────── which entries to build ─────────────────────────────

/// An entry is built when it has the requested artifact path and instance
/// id, where those are given.
pub open spec fn selected(e: BuildMatrixEntry, artifact: Option<String>, id: Option<String>) -> bool {
    &&& (artifact matches Some(a) ==> e.artifact_path@ == a@)
    &&& (id matches Some(i) ==> e.component_id@ == i@)
}

/// The entries to build, in discovery order; none selected is an error.
pub fn select_build_entries(
    entries: Vec<BuildMatrixEntry>,
    artifact: &Option<String>,
    id: &Option<String>,
) -> (r: Option<Vec<BuildMatrixEntry>>)
    ensures
        match r {
            Some(v) => v@ == entries@.filter(|e: BuildMatrixEntry| selected(e, *artifact, *id)) && v@.len() > 0,
            None => entries@.filter(|e: BuildMatrixEntry| selected(e, *artifact, *id)).len() == 0,
        },
{
    let ghost pred = |e: BuildMatrixEntry| selected(e, *artifact, *id);
    let ghost all = entries@;
    let mut kept: Vec<BuildMatrixEntry> = Vec::new();
    let mut rest = entries;
    let mut taken: usize = 0;
    let n = rest.len();
    assert(all.len() == n);
    assert(rest@ =~= all.skip(0));
    while rest.len() > 0
        invariant
            taken + rest.len() == all.len(),
            all.len() <= usize::MAX,
            pred == (|e: BuildMatrixEntry| selected(e, *artifact, *id)),
            rest@ =~= all.skip(taken as int),
            kept@ == all.take(taken as int).filter(pred),
        decreases rest.len(),
    {
        let e = rest.remove(0);
        proof {
            assert(e == all[taken as int]);
        }
        let keep_artifact = match artifact {
            Some(a) => e.artifact_path == *a,
            None => true,
        };
        let keep_id = match id {
            Some(i) => e.component_id == *i,
            None => true,
        };
        let ghost before = kept@;
        assert(keep_artifact == (artifact matches Some(a) ==> e.artifact_path@ == a@));
        assert(keep_id == (id matches Some(i) ==> e.component_id@ == i@));
        assert(pred(e) == selected(e, *artifact, *id));
        assert(pred(e) == (keep_artifact && keep_id));
        if keep_artifact && keep_id {
            kept.push(e);
        }
        proof {
            let t = all.take(taken + 1);
            assert(t.drop_last() =~= all.take(taken as int));
            assert(t.last() == e);
            reveal(Seq::filter);
            assert(kept@ =~= t.filter(pred));
            assert(rest@ =~= all.skip(taken + 1));
        }
        taken = taken + 1;
    }
    assert(all.take(all.len() as int) =~= all);
    if kept.len() == 0 {
        None
    } else {
        Some(kept)
    }
}

// ───────────────────────────── pushing ─────────────────────────────

/// Where and as what the built artifacts are pushed.
pub struct PushConfig {
    pub registry: String,
    pub version: String,
    pub repo_url: String,
    pub ref_name: String,
    pub sha: String,
}

/// What a push lacks.
#[derive(PartialEq, Eq, Structural, Clone, Copy, Debug)]
pub enum PushConfigError {
    MissingRegistry,
    MissingRepoUrl,
    MissingRefName,
    MissingSha,
    MissingCredentials,
}

/// The push settings as values.
pub struct PushConfigView {
    pub registry: Seq<char>,
    pub version: Seq<char>,
    pub repo_url: Seq<char>,
    pub ref_name: Seq<char>,
    pub sha: Seq<char>,
}

pub open spec fn push_config_view(c: PushConfig) -> PushConfigView {
    PushConfigView {
        registry: c.registry@,
        version: c.version@,
        repo_url: c.repo_url@,
        ref_name: c.ref_name@,
        sha: c.sha@,
    }
}

pub open spec fn push_config_result(r: Result<PushConfig, PushConfigError>) -> Result<PushConfigView, PushConfigError> {
    match r {
        Ok(c) => Ok(push_config_view(c)),
        Err(e) => Err(e),
    }
}

/// The push settings: each from its option, else from its fallback (the
/// `OCI_REGISTRY` variable, and git's remote, branch and commit); the
/// version defaults to `latest`; the registry username and password must
/// both be set in the environment. The first thing missing, in that order,
/// is the error.
pub open spec fn spec_push_config(
    args: BuildArgs,
    env_registry: Option<String>,
    git_remote: Option<String>,
    git_branch: Option<String>,
    git_sha: Option<String>,
    env_credentials_set: bool,
) -> Result<PushConfigView, PushConfigError> {
    let registry = crate::commands::prefer(args.registry, env_registry);
    let repo_url = crate::commands::prefer(args.repo_url, git_remote);
    let ref_name = crate::commands::prefer(args.ref_name, git_branch);
    let sha = crate::commands::prefer(args.sha, git_sha);
    if registry is None {
        Err(PushConfigError::MissingRegistry)
    } else if repo_url is None {
        Err(PushConfigError::MissingRepoUrl)
    } else if ref_name is None {
        Err(PushConfigError::MissingRefName)
    } else if sha is None {
        Err(PushConfigError::MissingSha)
    } else if !env_credentials_set {
        Err(PushConfigError::MissingCredentials)
    } else {
        Ok(
            PushConfigView {
                registry: registry->0@,
                version: match args.version {
                    Some(v) => v@,
                    None => "latest"@,
                },
                repo_url: repo_url->0@,
                ref_name: ref_name->0@,
                sha: sha->0@,
            },
        )
    }
}

impl PushConfigError {
    /// The error as text.
    pub fn message(&self) -> (m: &'static str)
        ensures
            m@ == match *self {
                PushConfigError::MissingRegistry => "Push requires --registry or OCI_REGISTRY"@,
                PushConfigError::MissingRepoUrl => "Push requires --repo-url or git remote origin"@,
                PushConfigError::MissingRefName => "Push requires --ref-name or a git branch"@,
                PushConfigError::MissingSha => "Push requires --sha or a git repo"@,
                PushConfigError::MissingCredentials => "Push requires OCI_REGISTRY_USER and OCI_REGISTRY_PASS env vars"@,
            },
    {
        match self {
            PushConfigError::MissingRegistry => "Push requires --registry or OCI_REGISTRY",
            PushConfigError::MissingRepoUrl => "Push requires --repo-url or git remote origin",
            PushConfigError::MissingRefName => "Push requires --ref-name or a git branch",
            PushConfigError::MissingSha => "Push requires --sha or a git repo",
            PushConfigError::MissingCredentials => "Push requires OCI_REGISTRY_USER and OCI_REGISTRY_PASS env vars",
        }
    }
}

/// Resolves the push settings; see `spec_push_config`.
pub fn resolve_push_config(
    args: &BuildArgs,
    env_registry: Option<String>,
    git_remote: Option<String>,
    git_branch: Option<String>,
    git_sha: Option<String>,
    env_credentials_set: bool,
) -> (r: Result<PushConfig, PushConfigError>)
    ensures
        push_config_result(r) == spec_push_config(*args, env_registry, git_remote, git_branch, git_sha, env_credentials_set),
{
    let registry = match &args.registry {
        Some(r) => r.clone(),
        None => match env_registry {
            Some(r) => r,
            None => return Err(PushConfigError::MissingRegistry),
        },
    };
    let version = match &args.version {
        Some(v) => v.clone(),
        None => String::from_str("latest"),
    };
    let repo_url = match &args.repo_url {
        Some(r) => r.clone(),
        None => match git_remote {
            Some(r) => r,
            None => return Err(PushConfigError::MissingRepoUrl),
        },
    };
    let ref_name = match &args.ref_name {
        Some(r) => r.clone(),
        None => match git_branch {
            Some(r) => r,
            None => return Err(PushConfigError::MissingRefName),
        },
    };
    let sha = match &args.sha {
        Some(s) => s.clone(),
        None => match git_sha {
            Some(s) => s,
            None => return Err(PushConfigError::MissingSha),
        },
    };
    if !env_credentials_set {
        return Err(PushConfigError::MissingCredentials);
    }
    Ok(PushConfig { registry, version, repo_url, ref_name, sha })
}

/// `oci-layout/<target>`: the directory an artifact is staged in.
pub fn oci_layout_dir(target_name: &str) -> (d: String)
    ensures
        d@ == "oci-layout/"@ + target_name@,
{
    let mut v: Vec<char> = Vec::new();
    append_str(&mut v, "oci-layout/");
    append_str(&mut v, target_name);
    string_of(&v)
}

/// The OCI reference an artifact is pushed to.
pub open spec fn spec_artifact_ref(registry: Seq<char>, target: Seq<char>, version: Seq<char>) -> Seq<char> {
    "oci://"@ + registry + "/fedcore/"@ + target + ":"@ + version
}

impl PushConfig {
    /// How one built artifact is pushed: `flux push artifact` of its staged
    /// directory, with the source repository and revision; the credentials
    /// argument shows `***` when `masked`, as in traces.
    pub fn push(&self, target_name: &str, credentials: &str, masked: bool) -> (c: CommandLine)
        ensures
            c.program@ == "flux"@,
            str_views(c.args@) == seq![
                "push"@,
                "artifact"@,
                spec_artifact_ref(self.registry@, target_name@, self.version@),
                "--path="@ + "oci-layout/"@ + target_name@,
                "--source="@ + self.repo_url@,
                "--revision="@ + self.ref_name@ + "@sha1:"@ + self.sha@,
                "--creds="@ + if masked { "***"@ } else { credentials@ },
            ],
    {
        let mut args: Vec<String> = Vec::new();
        push_arg(&mut args, "push");
        push_arg(&mut args, "artifact");
        let mut r: Vec<char> = Vec::new();
        append_str(&mut r, "oci://");
        append_str(&mut r, self.registry.as_str());
        append_str(&mut r, "/fedcore/");
        append_str(&mut r, target_name);
        append_str(&mut r, ":");
        append_str(&mut r, self.version.as_str());
        push_owned(&mut args, string_of(&r));
        let mut p: Vec<char> = Vec::new();
        append_str(&mut p, "--path=");
        append_str(&mut p, "oci-layout/");
        append_str(&mut p, target_name);
        push_owned(&mut args, string_of(&p));
        let mut s: Vec<char> = Vec::new();
        append_str(&mut s, "--source=");
        append_str(&mut s, self.repo_url.as_str());
        push_owned(&mut args, string_of(&s));
        let mut rv: Vec<char> = Vec::new();
        append_str(&mut rv, "--revision=");
        append_str(&mut rv, self.ref_name.as_str());
        append_str(&mut rv, "@sha1:");
        append_str(&mut rv, self.sha.as_str());
        push_owned(&mut args, string_of(&rv));
        let mut c: Vec<char> = Vec::new();
        append_str(&mut c, "--creds=");
        if masked {
            append_str(&mut c, "***");
        } else {
            append_str(&mut c, credentials);
        }
        push_owned(&mut args, string_of(&c));
        CommandLine { program: String::from_str("flux"), args }
    }
}

/// The closing line of a batch: all `total` done, or how many of them failed.
pub fn batch_summary(failed: usize, total: usize, done_verb: &str, failed_suffix: &str) -> (r: (bool, String))
    ensures
        r.0 == (failed == 0),
        failed == 0 ==> r.1@ == done_verb@ + " "@ + decimal(total as nat) + " artifacts"@,
        failed > 0 ==> r.1@ == decimal(failed as nat) + "/"@ + decimal(total as nat) + " "@ + failed_suffix@,
{
    let mut v: Vec<char> = Vec::new();
    if failed == 0 {
        append_str(&mut v, done_verb);
        append_str(&mut v, " ");
        push_decimal(&mut v, total as u64);
        append_str(&mut v, " artifacts");
    } else {
        push_decimal(&mut v, failed as u64);
        append_str(&mut v, "/");
        push_decimal(&mut v, total as u64);
        append_str(&mut v, " ");
        append_str(&mut v, failed_suffix);
    }
    (failed == 0, string_of(&v))
}

// ───────────────────────────── the run ─────────────────────────────

/// Why a build does not start.
#[derive(PartialEq, Eq, Structural, Clone, Copy, Debug)]
pub enum BuildError {
    Push(PushConfigError),
    NoMatchingComponents,
}

impl BuildError {
    /// The error as text.
    pub fn message(&self) -> (m: &'static str)
        ensures
            m@ == match *self {
                BuildError::Push(e) => match e {
                    PushConfigError::MissingRegistry => "Push requires --registry or OCI_REGISTRY"@,
                    PushConfigError::MissingRepoUrl => "Push requires --repo-url or git remote origin"@,
                    PushConfigError::MissingRefName => "Push requires --ref-name or a git branch"@,
                    PushConfigError::MissingSha => "Push requires --sha or a git repo"@,
                    PushConfigError::MissingCredentials => "Push requires OCI_REGISTRY_USER and OCI_REGISTRY_PASS env vars"@,
                },
                BuildError::NoMatchingComponents => "No matching components found"@,
            },
    {
        match self {
            BuildError::Push(e) => e.message(),
            BuildError::NoMatchingComponents => "No matching components found",
        }
    }
}

/// What a build run does: build these entries, then push them with these
/// settings, or print them when not pushing.
pub struct BuildPlan {
    pub entries: Vec<BuildMatrixEntry>,
    pub push: Option<PushConfig>,
}

pub open spec fn build_plan_result(r: Result<BuildPlan, BuildError>) -> Result<(Seq<BuildMatrixEntry>, Option<PushConfigView>), BuildError> {
    match r {
        Ok(p) => Ok(
            (
                p.entries@,
                match p.push {
                    Some(c) => Some(push_config_view(c)),
                    None => None,
                },
            ),
        ),
        Err(e) => Err(e),
    }
}

/// A build run: the push settings are settled first when pushing; then the
/// discovered entries are narrowed to the requested artifact and instance,
/// and there must be some left.
pub open spec fn spec_build(
    args: BuildArgs,
    env_registry: Option<String>,
    git_remote: Option<String>,
    git_branch: Option<String>,
    git_sha: Option<String>,
    env_credentials_set: bool,
    discovered: Seq<BuildMatrixEntry>,
) -> Result<(Seq<BuildMatrixEntry>, Option<PushConfigView>), BuildError> {
    let push = spec_push_config(args, env_registry, git_remote, git_branch, git_sha, env_credentials_set);
    let kept = discovered.filter(|e: BuildMatrixEntry| selected(e, args.artifact, args.id));
    if args.push && push is Err {
        Err(BuildError::Push(push->Err_0))
    } else if kept.len() == 0 {
        Err(BuildError::NoMatchingComponents)
    } else {
        Ok((kept, if args.push { Some(push->Ok_0) } else { None }))
    }
}

/// Plans a build run over the entries discovered for the cluster given, or
/// for all clusters.
pub fn execute(
    args: &BuildArgs,
    env_registry: Option<String>,
    git_remote: Option<String>,
    git_branch: Option<String>,
    git_sha: Option<String>,
    env_credentials_set: bool,
    discovered: Vec<BuildMatrixEntry>,
) -> (r: Result<BuildPlan, BuildError>)
    ensures
        build_plan_result(r) == spec_build(
            *args,
            env_registry,
            git_remote,
            git_branch,
            git_sha,
            env_credentials_set,
            discovered@,
        ),
{
    let push = if args.push {
        match resolve_push_config(args, env_registry, git_remote, git_branch, git_sha, env_credentials_set) {
            Ok(c) => Some(c),
            Err(e) => {
                return Err(BuildError::Push(e));
            },
        }
    } else {
        None
    };
    match select_build_entries(discovered, &args.artifact, &args.id) {
        Some(entries) => Ok(BuildPlan { entries, push }),
        None => Err(BuildError::NoMatchingComponents),
    }
}

/// A build run covers exactly the discovered entries of the requested
/// artifact and instance, and pushes exactly when asked to.
pub proof fn law_build_covers_requested_entries(
    args: BuildArgs,
    env_registry: Option<String>,
    git_remote: Option<String>,
    git_branch: Option<String>,
    git_sha: Option<String>,
    env_credentials_set: bool,
    discovered: Seq<BuildMatrixEntry>,
)
    requires
        spec_build(args, env_registry, git_remote, git_branch, git_sha, env_credentials_set, discovered) is Ok,
    ensures
        ({
            let plan = spec_build(args, env_registry, git_remote, git_branch, git_sha, env_credentials_set, discovered)->Ok_0;
            &&& plan.0.len() > 0
            &&& forall|i: int| 0 <= i < plan.0.len() ==> selected(#[trigger] plan.0[i], args.artifact, args.id)
            &&& forall|j: int| 0 <= j < discovered.len() && selected(discovered[j], args.artifact, args.id)
                ==> #[trigger] plan.0.contains(discovered[j])
            &&& (plan.1 is Some <==> args.push)
        }),
{
    broadcast use vstd::seq_lib::group_filter_ensures;
    let pred = |e: BuildMatrixEntry| selected(e, args.artifact, args.id);
    let kept = discovered.filter(pred);
    assert forall|i: int| 0 <= i < kept.len() implies selected(#[trigger] kept[i], args.artifact, args.id) by {
        assert(pred(kept[i]));
    }
    assert forall|j: int| 0 <= j < discovered.len() && selected(discovered[j], args.artifact, args.id) implies #[trigger] kept.contains(discovered[j]) by {
        assert(pred(discovered[j]));
    }
}

}
