//! Locating an artifact to inspect or compare: a local path, an OCI
//! reference, or the OCIRepository through which a component is deployed.
use vstd::prelude::*;
use crate::commands::{push_arg, push_owned, CommandLine};
use crate::commands::status::component_label;
use crate::json::{array_of, as_array, as_str, get, member, text_of, Json};
use crate::text::{
    append_chars, append_str, chars_of, contains, has_prefix, has_substring, repeated_prefix_end,
    slice_of, split, split_chars, starts_with, str_views, string_of, strip_repeated, views,
};

verus! {

/// Of the targets that are not read from disk (every `compare` target, and
/// an `inspect` target with nothing at its path), one with `://` or `/` names
/// an OCI artifact; anything else names a deployed component.
pub fn is_remote_target(target: &str) -> (b: bool)
    ensures
        b == (contains(target@, "://"@) || target@.contains('/')),
{
    let t = chars_of(target);
    let scheme = chars_of("://");
    if has_substring(&t, &scheme) {
        return true;
    }
    let mut i: usize = 0;
    while i < t.len()
        invariant
            i <= t.len(),
            t@ == target@,
            forall|k: int| 0 <= k < i ==> t@[k] != '/',
        decreases t.len() - i,
    {
        if t[i] == '/' {
            return true;
        }
        i = i + 1;
    }
    false
}

/// What an `inspect` target names.
#[derive(Clone, Copy, Debug, PartialEq, Eq, Structural)]
pub enum TargetKind {
    /// A file or directory on local disk, listed as it stands.
    Local,
    /// An OCI artifact, pulled from its registry.
    Oci,
    /// A component deployed in a cluster, found through its OCIRepository.
    Deployed,
}

/// How `inspect` reads a target, given whether a file or directory exists
/// at that path: an existing local path is listed from disk; otherwise a
/// target with `://` or `/` is an OCI artifact, and anything else a
/// deployed component.
pub fn classify_target(target: &str, exists_locally: bool) -> (k: TargetKind)
    ensures
        exists_locally ==> k == TargetKind::Local,
        !exists_locally ==> (k == TargetKind::Oci <==> (contains(target@, "://"@) || target@.contains('/'))),
        !exists_locally ==> (k == TargetKind::Deployed <==> !(contains(target@, "://"@) || target@.contains('/'))),
{
    if exists_locally {
        TargetKind::Local
    } else if is_remote_target(target) {
        TargetKind::Oci
    } else {
        TargetKind::Deployed
    }
}

/// The OCI reference of an artifact target: one with a scheme is read as
/// `oci://` followed by the target without its leading `oci://` prefixes;
/// any other is looked up under `fedcore/` in the registry.
pub open spec fn spec_oci_artifact_ref(artifact: Seq<char>, registry_url: Seq<char>) -> Seq<char> {
    if contains(artifact, "://"@) {
        "oci://"@ + strip_repeated(artifact, "oci://"@)
    } else {
        "oci://"@ + registry_url + "/fedcore/"@ + artifact
    }
}

pub fn oci_artifact_ref(artifact: &str, registry_url: &str) -> (r: String)
    ensures
        r@ == spec_oci_artifact_ref(artifact@, registry_url@),
{
    let a = chars_of(artifact);
    let scheme = chars_of("://");
    let mut out: Vec<char> = Vec::new();
    append_str(&mut out, "oci://");
    if has_substring(&a, &scheme) {
        let prefix = chars_of("oci://");
        proof {
            reveal_strlit("oci://");
        }
        let k = repeated_prefix_end(&a, &prefix);
        let rest = slice_of(&a, k, a.len());
        assert(rest@ =~= a@.skip(k as int));
        append_chars(&mut out, &rest);
    } else {
        append_str(&mut out, registry_url);
        append_str(&mut out, "/fedcore/");
        append_str(&mut out, artifact);
    }
    string_of(&out)
}

/// How the OCIRepository of a deployed component is looked up.
pub fn deployed_query_args(context: &str, component: &str, namespace: Option<&str>) -> (args: Vec<String>)
    ensures
        str_views(args@) == seq![
            "--context"@,
            context@,
            "--request-timeout=10s"@,
            "get"@,
            "ocirepository"@,
            "-l"@,
            "fedcore.io/component="@ + component@,
            "-o"@,
            "json"@,
        ] + match namespace {
            Some(ns) => seq!["-n"@, ns@],
            None => seq!["-A"@],
        },
{
    let mut args: Vec<String> = Vec::new();
    push_arg(&mut args, "--context");
    push_arg(&mut args, context);
    push_arg(&mut args, "--request-timeout=10s");
    push_arg(&mut args, "get");
    push_arg(&mut args, "ocirepository");
    push_arg(&mut args, "-l");
    push_owned(&mut args, component_label(component));
    push_arg(&mut args, "-o");
    push_arg(&mut args, "json");
    match namespace {
        Some(ns) => {
            push_arg(&mut args, "-n");
            push_arg(&mut args, ns);
        },
        None => {
            push_arg(&mut args, "-A");
        },
    }
    args
}

/// Why a deployed component's artifact cannot be located.
#[derive(PartialEq, Eq, Structural, Clone, Copy, Debug)]
pub enum DeployedRefError {
    UnexpectedFormat,
    NotFound,
    MissingUrl,
}

impl DeployedRefError {
    pub fn message(&self, component: &str) -> (m: String)
        ensures
            *self == DeployedRefError::UnexpectedFormat ==> m@ == "Unexpected kubectl response format"@,
            *self == DeployedRefError::NotFound ==> m@ == "No OCIRepository found for component '"@ + component@ + "'"@,
            *self == DeployedRefError::MissingUrl ==> m@ == "OCIRepository missing spec.url"@,
    {
        match self {
            DeployedRefError::UnexpectedFormat => String::from_str("Unexpected kubectl response format"),
            DeployedRefError::NotFound => {
                let mut v: Vec<char> = Vec::new();
                append_str(&mut v, "No OCIRepository found for component '");
                append_str(&mut v, component);
                append_str(&mut v, "'");
                string_of(&v)
            },
            DeployedRefError::MissingUrl => String::from_str("OCIRepository missing spec.url"),
        }
    }
}

/// The tag a deployed OCIRepository follows: its `spec.ref.tag`, else the
/// tag part (before `@`) of the revision it last fetched unless that is a
/// bare digest, else `latest`.
pub open spec fn deployed_tag(repo: Json) -> Seq<char> {
    match as_str(get(get(get(repo, "spec"@), "ref"@), "tag"@)) {
        Some(t) => t,
        None => match as_str(get(get(get(repo, "status"@), "artifact"@), "revision"@)) {
            Some(rev) => if !starts_with(split(rev, "@"@)[0], "sha256:"@) {
                split(rev, "@"@)[0]
            } else {
                "latest"@
            },
            None => "latest"@,
        },
    }
}

/// The OCI reference a deployed component was pulled from: the first
/// OCIRepository's URL (with `oci://` added when it lacks it) and its tag.
pub open spec fn spec_deployed_ref(json: Json) -> Result<Seq<char>, DeployedRefError> {
    match as_array(get(json, "items"@)) {
        None => Err(DeployedRefError::UnexpectedFormat),
        Some(items) => if items.len() == 0 {
            Err(DeployedRefError::NotFound)
        } else {
            match as_str(get(get(items[0], "spec"@), "url"@)) {
                None => Err(DeployedRefError::MissingUrl),
                Some(url) => Ok(
                    (if starts_with(url, "oci://"@) {
                        url
                    } else {
                        "oci://"@ + url
                    }) + ":"@ + deployed_tag(items[0]),
                ),
            }
        },
    }
}

fn tag_of(repo: &Json) -> (t: String)
    ensures
        t@ == deployed_tag(*repo),
{
    match text_of(member(member(member(Some(repo), "spec"), "ref"), "tag")) {
        Some(t) => t,
        None => match text_of(member(member(member(Some(repo), "status"), "artifact"), "revision")) {
            Some(rev) => {
                proof {
                    reveal_strlit("@");
                    reveal_strlit("sha256:");
                }
                let rv = chars_of(rev.as_str());
                let at = chars_of("@");
                let pieces = split_chars(&rv, &at);
                proof {
                    crate::text::lemma_split_nonempty(rv@, at@);
                    assert(views(pieces@)[0] == pieces@[0]@);
                }
                let head = &pieces[0];
                if !has_prefix(head, &chars_of("sha256:")) {
                    string_of(head)
                } else {
                    String::from_str("latest")
                }
            },
            None => String::from_str("latest"),
        },
    }
}

pub fn deployed_artifact_ref(json: &Json) -> (r: Result<String, DeployedRefError>)
    ensures
        match r {
            Ok(s) => spec_deployed_ref(*json) == Ok::<Seq<char>, DeployedRefError>(s@),
            Err(e) => spec_deployed_ref(*json) == Err::<Seq<char>, DeployedRefError>(e),
        },
{
    let items = match array_of(member(Some(json), "items")) {
        Some(items) => items,
        None => return Err(DeployedRefError::UnexpectedFormat),
    };
    if items.len() == 0 {
        return Err(DeployedRefError::NotFound);
    }
    let repo = &items[0];
    let url = match text_of(member(member(Some(repo), "spec"), "url")) {
        Some(u) => u,
        None => return Err(DeployedRefError::MissingUrl),
    };
    let tag = tag_of(repo);
    let u = chars_of(url.as_str());
    let mut out: Vec<char> = Vec::new();
    if !has_prefix(&u, &chars_of("oci://")) {
        append_str(&mut out, "oci://");
    }
    append_chars(&mut out, &u);
    append_str(&mut out, ":");
    append_str(&mut out, tag.as_str());
    Ok(string_of(&out))
}

/// What is missing to pull a deployed artifact.
#[derive(PartialEq, Eq, Structural, Clone, Copy, Debug)]
pub enum PullCredentialError {
    MissingUsername,
    MissingPassword,
}

impl PullCredentialError {
    /// The error as text.
    pub fn message(&self) -> (m: &'static str)
        ensures
            *self == PullCredentialError::MissingUsername ==> m@ == "Registry username required for pulling (--registry-user or OCI_REGISTRY_USER)"@,
            *self == PullCredentialError::MissingPassword ==> m@ == "Registry password required for pulling (--registry-pass or OCI_REGISTRY_PASS)"@,
    {
        match self {
            PullCredentialError::MissingUsername => "Registry username required for pulling (--registry-user or OCI_REGISTRY_USER)",
            PullCredentialError::MissingPassword => "Registry password required for pulling (--registry-pass or OCI_REGISTRY_PASS)",
        }
    }
}

/// The credentials for pulling: each from its option, else from its
/// environment variable; the username is checked first.
pub fn pull_credentials(
    username: Option<String>,
    password: Option<String>,
    env_username: Option<String>,
    env_password: Option<String>,
) -> (r: Result<(String, String), PullCredentialError>)
    ensures
        crate::commands::prefer(username, env_username) is None ==> r == Err::<(String, String), PullCredentialError>(PullCredentialError::MissingUsername),
        crate::commands::prefer(username, env_username) is Some && crate::commands::prefer(password, env_password) is None ==> r == Err::<(String, String), PullCredentialError>(PullCredentialError::MissingPassword),
        crate::commands::prefer(username, env_username) is Some && crate::commands::prefer(password, env_password) is Some ==> r == Ok::<(String, String), PullCredentialError>((crate::commands::prefer(username, env_username)->0, crate::commands::prefer(password, env_password)->0)),
{
    let u = match username {
        Some(u) => u,
        None => match env_username {
            Some(u) => u,
            None => return Err(PullCredentialError::MissingUsername),
        },
    };
    let p = match password {
        Some(p) => p,
        None => match env_password {
            Some(p) => p,
            None => return Err(PullCredentialError::MissingPassword),
        },
    };
    Ok((u, p))
}

/// How an artifact is pulled into a directory; the credentials show as
/// `***` when `masked`, as in traces.
pub fn pull_artifact_command(oci_ref: &str, output_dir: &str, username: &str, password: &str, masked: bool) -> (c: CommandLine)
    ensures
        c.program@ == "flux"@,
        str_views(c.args@) == seq![
            "pull"@,
            "artifact"@,
            oci_ref@,
            "--output="@ + output_dir@,
            if masked { "--creds=***"@ } else { "--creds="@ + username@ + ":"@ + password@ },
        ],
{
    let mut args: Vec<String> = Vec::new();
    push_arg(&mut args, "pull");
    push_arg(&mut args, "artifact");
    push_arg(&mut args, oci_ref);
    let mut o: Vec<char> = Vec::new();
    append_str(&mut o, "--output=");
    append_str(&mut o, output_dir);
    push_owned(&mut args, string_of(&o));
    if masked {
        push_arg(&mut args, "--creds=***");
    } else {
        let mut c: Vec<char> = Vec::new();
        append_str(&mut c, "--creds=");
        append_str(&mut c, username);
        append_str(&mut c, ":");
        append_str(&mut c, password);
        push_owned(&mut args, string_of(&c));
    }
    CommandLine { program: String::from_str("flux"), args }
}

}
