//! What the commands share: paths, external invocations, registry
//! credentials and the reporting of failed tasks.
pub mod bootstrap;
pub mod build;
pub mod status;
pub mod inspect;
pub mod helm_manage;
pub mod mirror_flux;
pub mod matrix;
pub mod validate;
pub mod init;
pub mod compare;
pub mod explain;

use vstd::prelude::*;
use crate::text::{append_str, chars_of, string_of, strip_bounds, str_views, trim, CharClass};

verus! {

// ───────────────────────────── paths ─────────────────────────────

/// Every backslash of `p` turned into a slash.
pub open spec fn spec_normalize_path(p: Seq<char>) -> Seq<char> {
    p.map_values(|c: char| if c == '\\' { '/' } else { c })
}

/// The path with Windows separators turned into `/`.
pub fn normalize_path(path: &str) -> (r: String)
    ensures
        r@ == spec_normalize_path(path@),
{
    let v = chars_of(path);
    let mut out: Vec<char> = Vec::new();
    let mut i: usize = 0;
    while i < v.len()
        invariant
            i <= v.len(),
            v@ == path@,
            out@ == spec_normalize_path(v@.take(i as int)),
        decreases v.len() - i,
    {
        let c = v[i];
        out.push(if c == '\\' { '/' } else { c });
        i = i + 1;
        assert(out@ =~= spec_normalize_path(v@.take(i as int)));
    }
    assert(v@.take(v.len() as int) =~= v@);
    string_of(&out)
}

/// A normalized path holds no backslash, is as long as the path given,
/// and normalizing it again changes nothing.
pub proof fn law_normalize_path(p: Seq<char>)
    ensures
        !spec_normalize_path(p).contains('\\'),
        spec_normalize_path(p).len() == p.len(),
        spec_normalize_path(spec_normalize_path(p)) == spec_normalize_path(p),
{
    let q = spec_normalize_path(p);
    assert(spec_normalize_path(q) =~= q);
    if q.contains('\\') {
        let i = choose|i: int| 0 <= i < q.len() && q[i] == '\\';
        assert(q[i] == (if p[i] == '\\' { '/' } else { p[i] }));
    }
}

// ───────────────────────────── external commands ─────────────────────────────

/// An external program and the arguments it is run with.
pub struct CommandLine {
    pub program: String,
    pub args: Vec<String>,
}

/// Appends one argument.
pub fn push_arg(args: &mut Vec<String>, a: &str)
    ensures
        str_views(final(args)@) == str_views(old(args)@).push(a@),
{
    args.push(String::from_str(a));
    assert(str_views(final(args)@) =~= str_views(old(args)@).push(a@));
}

/// Appends one owned argument.
pub fn push_owned(args: &mut Vec<String>, a: String)
    ensures
        str_views(final(args)@) == str_views(old(args)@).push(a@),
{
    let ghost v = a@;
    args.push(a);
    assert(str_views(final(args)@) =~= str_views(old(args)@).push(v));
}

/// The error text for a command that exited with a failure status.
pub fn command_failure_message(cmd: &str, stderr: &str) -> (m: String)
    ensures
        m@ == cmd@ + " failed: "@ + trim(stderr@),
{
    let err = chars_of(stderr);
    let (a, b) = strip_bounds(&err, 0, err.len(), &CharClass::Space);
    assert(err@.subrange(0, err.len() as int) =~= err@);
    let mut out: Vec<char> = Vec::new();
    append_str(&mut out, cmd);
    append_str(&mut out, " failed: ");
    let mut i = a;
    let ghost base = out@;
    while i < b
        invariant
            a <= i <= b <= err.len(),
            out@ == base + err@.subrange(a as int, i as int),
        decreases b - i,
    {
        out.push(err[i]);
        i = i + 1;
        assert(out@ =~= base + err@.subrange(a as int, i as int));
    }
    string_of(&out)
}

/// How `ytt` is run to read a cluster file's data values as JSON.
pub fn cluster_metadata_command(cluster_file: &str) -> (c: CommandLine)
    ensures
        c.program@ == "ytt"@,
        str_views(c.args@) == seq!["-f"@, cluster_file@, "--data-values-inspect"@, "-o"@, "json"@],
{
    let mut args: Vec<String> = Vec::new();
    push_arg(&mut args, "-f");
    push_arg(&mut args, cluster_file);
    push_arg(&mut args, "--data-values-inspect");
    push_arg(&mut args, "-o");
    push_arg(&mut args, "json");
    CommandLine { program: String::from_str("ytt"), args }
}

/// The kubectl context named by the output of `kubectl config current-context`.
pub fn get_current_context(stdout: &str) -> (context: String)
    ensures
        context@ == trim(stdout@),
{
    let v = chars_of(stdout);
    let (a, b) = strip_bounds(&v, 0, v.len(), &CharClass::Space);
    assert(v@.subrange(0, v.len() as int) =~= v@);
    let piece = crate::text::slice_of(&v, a, b);
    string_of(&piece)
}

// ───────────────────────────── registry credentials ─────────────────────────────

/// The registry to push to or pull from, and how to log in to it.
pub struct RegistryCredentials {
    pub url: String,
    pub username: String,
    pub password: String,
}

/// Which part of the registry credentials is missing.
#[derive(PartialEq, Eq, Structural, Clone, Copy, Debug)]
pub enum CredentialError {
    MissingRegistry,
    MissingUsername,
    MissingPassword,
}

impl CredentialError {
    /// The message the command line shows for the missing part.
    pub fn message(&self) -> (m: String)
        ensures
            *self == CredentialError::MissingRegistry ==> m@ == "Registry URL required (--registry or OCI_REGISTRY env var)"@,
            *self == CredentialError::MissingUsername ==> m@ == "Registry username required (--registry-user or OCI_REGISTRY_USER env var)"@,
            *self == CredentialError::MissingPassword ==> m@ == "Registry password required (--registry-pass or OCI_REGISTRY_PASS env var)"@,
    {
        match self {
            CredentialError::MissingRegistry => String::from_str(
                "Registry URL required (--registry or OCI_REGISTRY env var)",
            ),
            CredentialError::MissingUsername => String::from_str(
                "Registry username required (--registry-user or OCI_REGISTRY_USER env var)",
            ),
            CredentialError::MissingPassword => String::from_str(
                "Registry password required (--registry-pass or OCI_REGISTRY_PASS env var)",
            ),
        }
    }
}

/// A command-line value, or else the environment's.
pub open spec fn prefer(arg: Option<String>, env: Option<String>) -> Option<String> {
    if arg is Some {
        arg
    } else {
        env
    }
}

/// The registry credentials: each part from its command-line option, or else
/// from its environment variable (`OCI_REGISTRY`, `OCI_REGISTRY_USER`,
/// `OCI_REGISTRY_PASS`, whose values the caller passes); the first part
/// missing from both, in that order, is the error.
pub fn resolve_registry_credentials(
    registry: Option<String>,
    username: Option<String>,
    password: Option<String>,
    env_registry: Option<String>,
    env_username: Option<String>,
    env_password: Option<String>,
) -> (r: Result<RegistryCredentials, CredentialError>)
    ensures
        prefer(registry, env_registry) is None ==> r == Err::<RegistryCredentials, CredentialError>(
            CredentialError::MissingRegistry,
        ),
        prefer(registry, env_registry) is Some && prefer(username, env_username) is None ==> r
            == Err::<RegistryCredentials, CredentialError>(CredentialError::MissingUsername),
        prefer(registry, env_registry) is Some && prefer(username, env_username) is Some && prefer(
            password,
            env_password,
        ) is None ==> r == Err::<RegistryCredentials, CredentialError>(
            CredentialError::MissingPassword,
        ),
        r is Ok ==> {
            &&& prefer(registry, env_registry) == Some(r->Ok_0.url)
            &&& prefer(username, env_username) == Some(r->Ok_0.username)
            &&& prefer(password, env_password) == Some(r->Ok_0.password)
        },
        (prefer(registry, env_registry) is Some && prefer(username, env_username) is Some
            && prefer(password, env_password) is Some) ==> r is Ok,
{
    let url = match registry {
        Some(r) => r,
        None => match env_registry {
            Some(r) => r,
            None => return Err(CredentialError::MissingRegistry),
        },
    };
    let username = match username {
        Some(u) => u,
        None => match env_username {
            Some(u) => u,
            None => return Err(CredentialError::MissingUsername),
        },
    };
    let password = match password {
        Some(p) => p,
        None => match env_password {
            Some(p) => p,
            None => return Err(CredentialError::MissingPassword),
        },
    };
    Ok(RegistryCredentials { url, username, password })
}

/// A value given on the command line always wins over the environment.
pub proof fn law_arguments_win_over_environment(arg: String, env: Option<String>)
    ensures
        prefer(Some(arg), env) == Some(arg),
{
}

// ───────────────────────────── failed tasks ─────────────────────────────

/// A task of a batch that did not succeed, with what went wrong if known.
pub struct TaskFailure {
    pub name: String,
    pub error: Option<String>,
}

impl TaskFailure {
    pub fn new(name: String, error: String) -> (f: Self)
        ensures
            f.name == name,
            f.error == Some(error),
    {
        TaskFailure { name, error: Some(error) }
    }
}

/// The line that reports one failure: `name: error`, or the name alone.
pub open spec fn failure_line(f: TaskFailure) -> Seq<char> {
    match f.error {
        Some(e) => f.name@ + ": "@ + e@,
        None => f.name@,
    }
}

/// The lines that report the failures, one each, in order.
pub fn report_failures(failures: &Vec<TaskFailure>) -> (lines: Vec<String>)
    ensures
        lines@.len() == failures@.len(),
        forall|i: int| 0 <= i < failures@.len() ==> #[trigger] lines@[i]@ == failure_line(failures@[i]),
{
    let mut lines: Vec<String> = Vec::new();
    let mut i: usize = 0;
    while i < failures.len()
        invariant
            i <= failures.len(),
            lines@.len() == i,
            forall|k: int| 0 <= k < i ==> #[trigger] lines@[k]@ == failure_line(failures@[k]),
        decreases failures.len() - i,
    {
        let f = &failures[i];
        let line = match &f.error {
            Some(e) => {
                let mut v: Vec<char> = Vec::new();
                append_str(&mut v, f.name.as_str());
                append_str(&mut v, ": ");
                append_str(&mut v, e.as_str());
                string_of(&v)
            },
            None => f.name.clone(),
        };
        lines.push(line);
        i = i + 1;
    }
    lines
}


/// The end of a batch: fine without failures, else an error that counts
/// them: `<n> <what>`.
pub fn batch_verdict(failures: &Vec<TaskFailure>, what: &str) -> (r: Result<(), String>)
    ensures
        failures.len() == 0 ==> r is Ok,
        failures.len() > 0 ==> (r is Err && r->Err_0@ == crate::text::decimal(failures.len() as nat) + " "@ + what@),
{
    if failures.len() == 0 {
        Ok(())
    } else {
        let mut v: Vec<char> = Vec::new();
        crate::text::push_decimal(&mut v, failures.len() as u64);
        append_str(&mut v, " ");
        append_str(&mut v, what);
        Err(string_of(&v))
    }
}

/// `-f path` for each path, in order: how ytt is given its inputs.
pub open spec fn file_args(paths: Seq<Seq<char>>) -> Seq<Seq<char>>
    decreases paths.len(),
{
    if paths.len() == 0 {
        Seq::<Seq<char>>::empty()
    } else {
        file_args(paths.drop_last()) + seq!["-f"@, paths.last()]
    }
}

/// Appends `-f path` for each path.
pub fn push_file_args(args: &mut Vec<String>, paths: &Vec<String>)
    ensures
        str_views(final(args)@) == str_views(old(args)@) + file_args(str_views(paths@)),
{
    let mut i: usize = 0;
    while i < paths.len()
        invariant
            i <= paths.len(),
            str_views(args@) == str_views(old(args)@) + file_args(str_views(paths@).take(i as int)),
        decreases paths.len() - i,
    {
        push_arg(args, "-f");
        push_owned(args, paths[i].clone());
        proof {
            let t = str_views(paths@).take(i + 1);
            assert(t.drop_last() =~= str_views(paths@).take(i as int));
            assert(t.last() == paths@[i as int]@);
        }
        i = i + 1;
        assert(str_views(args@) =~= str_views(old(args)@) + file_args(str_views(paths@).take(i as int)));
    }
    assert(str_views(paths@).take(paths.len() as int) =~= str_views(paths@));
}


}
