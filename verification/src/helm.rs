//! The local cache of downloaded Helm charts.
use vstd::prelude::*;
use crate::paths::HELM_CACHE_DIR;
use crate::text::{append_str, string_of};
use crate::commands::{push_arg, CommandLine};

verus! {

/// The archive name Helm gives a chart version.
pub open spec fn spec_chart_file_name(chart: Seq<char>, version: Seq<char>) -> Seq<char> {
    chart + "-"@ + version + ".tgz"@
}

/// Where a chart version is kept in the cache.
pub fn cached_path(chart: &str, version: &str) -> (p: String)
    ensures
        p@ == HELM_CACHE_DIR@ + "/"@ + spec_chart_file_name(chart@, version@),
{
    let mut v: Vec<char> = Vec::new();
    append_str(&mut v, HELM_CACHE_DIR);
    append_str(&mut v, "/");
    append_str(&mut v, chart);
    append_str(&mut v, "-");
    append_str(&mut v, version);
    append_str(&mut v, ".tgz");
    string_of(&v)
}

/// How a chart version missing from the cache is downloaded into it.
pub fn chart_pull_command(repo_url: &str, version: &str) -> (c: CommandLine)
    ensures
        c.program@ == "helm"@,
        crate::text::str_views(c.args@) == seq![
            "pull"@,
            repo_url@,
            "--version"@,
            version@,
            "--destination"@,
            HELM_CACHE_DIR@,
        ],
{
    let mut args: Vec<String> = Vec::new();
    push_arg(&mut args, "pull");
    push_arg(&mut args, repo_url);
    push_arg(&mut args, "--version");
    push_arg(&mut args, version);
    push_arg(&mut args, "--destination");
    push_arg(&mut args, HELM_CACHE_DIR);
    CommandLine { program: String::from_str("helm"), args }
}

}
