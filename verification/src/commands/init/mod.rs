//! `init`: what a new project, cluster or component consists of, given the
//! answers to the questions that `init` asks. The questions are asked, and
//! the directories and files created, by the caller.
pub mod texts;

use vstd::prelude::*;
use vstd::utf8::encode_utf8;
use crate::paths::{CLUSTERS_DIR, COMPONENTS_DIR};
use crate::text::{append_str, chars_of, starts_with, string_of};
use crate::commands::init::texts::{
    CLUSTER_YAML_HEAD, CLUSTER_YAML_CLOUD, CLUSTER_YAML_REGION, CLUSTER_YAML_ENVIRONMENT, CLUSTER_YAML_OVERLAYS, CLUSTER_YAML_OVERLAY_ITEM, CLUSTER_YAML_FACTS_END, AWS_BLOCK_HEAD, AWS_BLOCK_TAIL, CLUSTER_YAML_TENANTS, NAMESPACE_YAML_HEAD, NAMESPACE_YAML_LABEL, NAMESPACE_YAML_END, DEFAULT_VALUES_HEAD, DEFAULT_VALUES_TAIL, COMPONENT_README_HEAD, COMPONENT_README_TYPE, COMPONENT_README_TAIL, HELM_YAML_HEAD, HELM_YAML_CHART, HELM_YAML_VERSION, HELM_YAML_MIRROR, HELM_YAML_RELEASE, HELM_YAML_NAMESPACE, HELM_YAML_TAIL, MANIFESTS_YAML_HEAD, MANIFESTS_YAML_DESCRIPTION, MANIFESTS_YAML_TAIL, KUSTOMIZE_YAML_HEAD, KUSTOMIZE_YAML_TAIL, PROJECT_README_HEAD, PROJECT_README_TREE, PROJECT_README_TAIL, CLUSTERS_README, COMPONENTS_README, EXAMPLE_CLUSTER_YAML, EXAMPLE_OVERLAY_YAML, DOCS_README, DOCS_PROJECT_STRUCTURE, DOCS_COMMANDS, DOCS_WORKFLOW,
};

verus! {

/// The things `init` can create.
pub enum InitSubcommand {
    Project,
    Cluster,
    Component,
}

// ───────────────────────────── names ─────────────────────────────

/// What `char::is_alphanumeric` returns for a character.
pub uninterp spec fn spec_is_alphanumeric(c: char) -> bool;

/// `char::is_alphanumeric`: whether the character is Unicode alphabetic or
/// numeric. The result is named, not spelled out: the Unicode tables are not
/// restated here.
#[verifier::external_body]
fn is_alphanumeric(c: char) -> (b: bool)
    ensures
        b == spec_is_alphanumeric(c),
{
    c.is_alphanumeric()
}

/// What `char::is_numeric` returns for a character.
pub uninterp spec fn spec_is_numeric(c: char) -> bool;

/// `char::is_numeric`: whether the character has a Unicode numeric general
/// category. The result is named, not spelled out: the Unicode tables are
/// not restated here.
#[verifier::external_body]
fn is_numeric(c: char) -> (b: bool)
    ensures
        b == spec_is_numeric(c),
{
    c.is_numeric()
}

/// A character allowed in a cluster or component name.
pub open spec fn name_char(c: char) -> bool {
    spec_is_alphanumeric(c) || c == '-' || c == '_'
}

/// Cluster and component names are not empty and hold only alphanumeric
/// characters, hyphens and underscores.
pub open spec fn valid_name(s: Seq<char>) -> bool {
    s.len() > 0 && forall|i: int| 0 <= i < s.len() ==> name_char(#[trigger] s[i])
}

/// Why a name is refused, for a subject such as `Cluster` or `Component`.
pub open spec fn name_error(subject: Seq<char>, s: Seq<char>) -> Seq<char> {
    if s.len() == 0 {
        subject + " name cannot be empty"@
    } else {
        subject + " name must contain only alphanumeric characters, hyphens, and underscores"@
    }
}

/// Checks a cluster or component name; `subject` names what is named.
pub fn validate_name(subject: &str, name: &str) -> (r: Result<(), String>)
    ensures
        r is Ok <==> valid_name(name@),
        r matches Err(e) ==> e@ == name_error(subject@, name@),
{
    let v = chars_of(name);
    let mut i: usize = 0;
    let mut ok = true;
    while i < v.len()
        invariant
            i <= v.len(),
            v@ == name@,
            ok <==> forall|k: int| 0 <= k < i ==> name_char(#[trigger] v@[k]),
        decreases v.len() - i,
    {
        let c = v[i];
        if !(is_alphanumeric(c) || c == '-' || c == '_') {
            ok = false;
        }
        i = i + 1;
    }
    let mut e: Vec<char> = Vec::new();
    append_str(&mut e, subject);
    if v.len() == 0 {
        append_str(&mut e, " name cannot be empty");
        Err(string_of(&e))
    } else if !ok {
        append_str(&mut e, " name must contain only alphanumeric characters, hyphens, and underscores");
        Err(string_of(&e))
    } else {
        Ok(())
    }
}

/// The length of a text in UTF-8 bytes, as `str::len` counts it.
pub open spec fn byte_len(s: Seq<char>) -> nat {
    encode_utf8(s).len()
}

/// An AWS account id is twelve bytes long and numeric throughout.
pub open spec fn valid_account_id(s: Seq<char>) -> bool {
    byte_len(s) == 12 && forall|i: int| 0 <= i < s.len() ==> spec_is_numeric(#[trigger] s[i])
}

pub open spec fn account_id_error() -> Seq<char> {
    "AWS Account ID must be 12 digits"@
}

/// Checks an AWS account id.
pub fn validate_account_id(id: &str) -> (r: Result<(), String>)
    ensures
        r is Ok <==> valid_account_id(id@),
        r matches Err(e) ==> e@ == account_id_error(),
{
    let v = chars_of(id);
    let mut i: usize = 0;
    let mut ok = true;
    while i < v.len()
        invariant
            i <= v.len(),
            v@ == id@,
            ok <==> forall|k: int| 0 <= k < i ==> spec_is_numeric(#[trigger] v@[k]),
        decreases v.len() - i,
    {
        if !is_numeric(v[i]) {
            ok = false;
        }
        i = i + 1;
    }
    if id.as_bytes().len() == 12 && ok {
        Ok(())
    } else {
        Err(String::from_str("AWS Account ID must be 12 digits"))
    }
}

// ───────────────────────────── choices ─────────────────────────────

/// Where a cluster runs.
pub enum Cloud {
    Aws,
    Azure,
    Onprem,
}

pub open spec fn cloud_name(c: Cloud) -> Seq<char> {
    match c {
        Cloud::Aws => "aws"@,
        Cloud::Azure => "azure"@,
        Cloud::Onprem => "onprem"@,
    }
}

impl Cloud {
    /// The name the cluster file records.
    pub fn name(&self) -> (n: &'static str)
        ensures
            n@ == cloud_name(*self),
    {
        match self {
            Cloud::Aws => "aws",
            Cloud::Azure => "azure",
            Cloud::Onprem => "onprem",
        }
    }
}

/// What the location of a cluster is asked as: a region in a cloud, a
/// datacenter on premises.
pub fn region_prompt(cloud: &Cloud) -> (p: &'static str)
    ensures
        p@ == (if *cloud is Onprem { "Datacenter"@ } else { "Region"@ }),
{
    match cloud {
        Cloud::Onprem => "Datacenter",
        _ => "Region",
    }
}

/// The location offered when none is typed.
pub fn default_region(cloud: &Cloud) -> (r: &'static str)
    ensures
        r@ == match *cloud {
            Cloud::Aws => "us-east-1"@,
            Cloud::Azure => "eastus"@,
            Cloud::Onprem => "dc1"@,
        },
{
    match cloud {
        Cloud::Aws => "us-east-1",
        Cloud::Azure => "eastus",
        Cloud::Onprem => "dc1",
    }
}

/// The stage a cluster serves.
pub enum Environment {
    Dev,
    Staging,
    Prod,
}

pub open spec fn environment_name(e: Environment) -> Seq<char> {
    match e {
        Environment::Dev => "dev"@,
        Environment::Staging => "staging"@,
        Environment::Prod => "prod"@,
    }
}

impl Environment {
    /// The name the cluster file records.
    pub fn name(&self) -> (n: &'static str)
        ensures
            n@ == environment_name(*self),
    {
        match self {
            Environment::Dev => "dev",
            Environment::Staging => "staging",
            Environment::Prod => "prod",
        }
    }
}

/// The chart of a Helm component.
pub struct ChartAnswers {
    pub chart_name: String,
    pub chart_repo: String,
    pub chart_version: String,
}

/// How a component is deployed.
pub enum ComponentKind {
    Helm(ChartAnswers),
    Manifests,
    Kustomize,
}

pub open spec fn kind_name(k: ComponentKind) -> Seq<char> {
    match k {
        ComponentKind::Helm(_) => "helm"@,
        ComponentKind::Manifests => "manifests"@,
        ComponentKind::Kustomize => "kustomize"@,
    }
}

/// The chart repository offered when none is typed.
pub const DEFAULT_CHART_REPO: &'static str = "https://charts.example.com";

/// The chart version offered when none is typed.
pub const DEFAULT_CHART_VERSION: &'static str = "1.0.0";

/// The project name offered when none is typed.
pub const DEFAULT_PROJECT_NAME: &'static str = "my-fedcore-project";

// ───────────────────────────── answers and plans ─────────────────────────────

pub struct ProjectAnswers {
    pub name: String,
    /// Whether a file or directory of that name is already there.
    pub directory_exists: bool,
}

pub struct ClusterAnswers {
    pub name: String,
    pub cloud: Cloud,
    pub region: String,
    pub environment: Environment,
    /// Asked for clusters on AWS only.
    pub aws_account_id: Option<String>,
    /// Whether the cluster's directory is already there.
    pub directory_exists: bool,
}

pub struct ComponentAnswers {
    pub name: String,
    pub kind: ComponentKind,
    pub namespace: String,
    /// Whether the component's directory is already there.
    pub directory_exists: bool,
}

/// The answers to one of the three sets of questions.
pub enum InitAnswers {
    Project(ProjectAnswers),
    Cluster(ClusterAnswers),
    Component(ComponentAnswers),
}

/// What a created file holds: text given here, or one of the platform's
/// template files, named by its path in the platform tree.
pub enum FileContent {
    Text(String),
    Template(String),
}

pub enum FileView {
    Text(Seq<char>),
    Template(Seq<char>),
}

impl View for FileContent {
    type V = FileView;

    open spec fn view(&self) -> FileView {
        match self {
            FileContent::Text(t) => FileView::Text(t@),
            FileContent::Template(t) => FileView::Template(t@),
        }
    }
}

/// A file to create.
pub struct PlannedFile {
    pub path: String,
    pub content: FileContent,
}

/// What to create, in order, and what to say when it is done.
pub struct InitPlan {
    pub dirs: Vec<String>,
    pub files: Vec<PlannedFile>,
    pub done: String,
    pub summary: String,
    pub hint: Option<String>,
}

pub struct PlanView {
    pub dirs: Seq<Seq<char>>,
    pub files: Seq<(Seq<char>, FileView)>,
    pub done: Seq<char>,
    pub summary: Seq<char>,
    pub hint: Option<Seq<char>>,
}

pub open spec fn file_views(fs: Seq<PlannedFile>) -> Seq<(Seq<char>, FileView)> {
    fs.map_values(|f: PlannedFile| (f.path@, f.content@))
}

impl View for InitPlan {
    type V = PlanView;

    open spec fn view(&self) -> PlanView {
        PlanView {
            dirs: crate::text::str_views(self.dirs@),
            files: file_views(self.files@),
            done: self.done@,
            summary: self.summary@,
            hint: match self.hint {
                Some(h) => Some(h@),
                None => None,
            },
        }
    }
}

/// Why nothing is created.
pub enum InitError {
    /// An answer is not acceptable.
    Invalid(String),
    /// What would be created is already there.
    AlreadyExists(String),
    /// The answers are those of another subcommand.
    AnswersDoNotMatch,
}

/// A path below a directory, as `Path::join` forms it for a relative path:
/// a separator is added unless the directory is empty or ends in one.
pub open spec fn child_path(dir: Seq<char>, rel: Seq<char>) -> Seq<char> {
    if dir.len() > 0 && dir.last() != '/' {
        dir + "/"@ + rel
    } else {
        dir + rel
    }
}

fn child(dir: &str, rel: &str) -> (r: String)
    ensures
        r@ == child_path(dir@, rel@),
{
    let d = chars_of(dir);
    let mut v: Vec<char> = Vec::new();
    append_str(&mut v, dir);
    if d.len() > 0 && d[d.len() - 1] != '/' {
        append_str(&mut v, "/");
    }
    append_str(&mut v, rel);
    string_of(&v)
}

fn file_views_push(fs: &mut Vec<PlannedFile>, f: PlannedFile)
    ensures
        file_views(final(fs)@) == file_views(old(fs)@).push((f.path@, f.content@)),
{
    let ghost fv = (f.path@, f.content@);
    fs.push(f);
    assert(file_views(final(fs)@) =~= file_views(old(fs)@).push(fv));
}

fn dir_push(ds: &mut Vec<String>, d: String)
    ensures
        crate::text::str_views(final(ds)@) == crate::text::str_views(old(ds)@).push(d@),
{
    let ghost dv = d@;
    ds.push(d);
    assert(crate::text::str_views(final(ds)@) =~= crate::text::str_views(old(ds)@).push(dv));
}

// ───────────────────────────── cluster ─────────────────────────────

/// A new cluster's directory.
pub open spec fn cluster_dir(name: Seq<char>) -> Seq<char> {
    CLUSTERS_DIR@ + "/"@ + name
}

/// The directory a new cluster gets.
pub fn cluster_directory(name: &str) -> (d: String)
    ensures
        d@ == cluster_dir(name@),
{
    let mut v: Vec<char> = Vec::new();
    append_str(&mut v, CLUSTERS_DIR);
    append_str(&mut v, "/");
    append_str(&mut v, name);
    string_of(&v)
}

/// A new cluster's `cluster.yaml`: its physical facts, its AWS account when
/// on AWS, and an empty list of tenants.
pub open spec fn cluster_yaml(
    name: Seq<char>,
    cloud: Seq<char>,
    region: Seq<char>,
    environment: Seq<char>,
    aws_account_id: Option<Seq<char>>,
) -> Seq<char> {
    CLUSTER_YAML_HEAD@ + name + CLUSTER_YAML_CLOUD@ + cloud + CLUSTER_YAML_REGION@ + region
        + CLUSTER_YAML_ENVIRONMENT@ + environment + CLUSTER_YAML_OVERLAYS@ + cloud
        + CLUSTER_YAML_OVERLAY_ITEM@ + environment + CLUSTER_YAML_FACTS_END@ + match aws_account_id {
        Some(a) => AWS_BLOCK_HEAD@ + a + AWS_BLOCK_TAIL@,
        None => Seq::<char>::empty(),
    } + CLUSTER_YAML_TENANTS@
}

/// What creating a cluster consists of.
pub open spec fn cluster_plan(a: ClusterAnswers) -> PlanView {
    let d = cluster_dir(a.name@);
    let account = if a.cloud is Aws {
        match a.aws_account_id {
            Some(id) => Some(id@),
            None => None,
        }
    } else {
        None
    };
    PlanView {
        dirs: seq![d, d + "/overlays"@],
        files: seq![
            (
                d + "/cluster.yaml"@,
                FileView::Text(
                    cluster_yaml(
                        a.name@,
                        cloud_name(a.cloud),
                        a.region@,
                        environment_name(a.environment),
                        account,
                    ),
                ),
            ),
        ],
        done: "Cluster '"@ + a.name@ + "' created"@,
        summary: d,
        hint: Some("edit cluster.yaml to customize, then: fedcore bootstrap --cluster <path>"@),
    }
}

/// Whether the cluster answers are acceptable: a valid name, and a valid
/// account id for a cluster on AWS.
pub open spec fn cluster_answers_valid(a: ClusterAnswers) -> bool {
    &&& valid_name(a.name@)
    &&& a.cloud is Aws ==> (a.aws_account_id matches Some(id) && valid_account_id(id@))
}

/// The error for cluster answers: a refused name, then a refused or missing
/// account id, then an existing directory.
pub open spec fn cluster_error(a: ClusterAnswers) -> InitErrorView {
    if !valid_name(a.name@) {
        InitErrorView::Invalid(name_error("Cluster"@, a.name@))
    } else if a.cloud is Aws && !(a.aws_account_id matches Some(id) && valid_account_id(id@)) {
        InitErrorView::Invalid(account_id_error())
    } else {
        InitErrorView::AlreadyExists("Cluster directory '"@ + cluster_dir(a.name@) + "' already exists"@)
    }
}

pub enum InitErrorView {
    Invalid(Seq<char>),
    AlreadyExists(Seq<char>),
    AnswersDoNotMatch,
}

impl View for InitError {
    type V = InitErrorView;

    open spec fn view(&self) -> InitErrorView {
        match self {
            InitError::Invalid(m) => InitErrorView::Invalid(m@),
            InitError::AlreadyExists(m) => InitErrorView::AlreadyExists(m@),
            InitError::AnswersDoNotMatch => InitErrorView::AnswersDoNotMatch,
        }
    }
}

impl InitError {
    /// The error as text.
    pub fn message(&self) -> (m: String)
        ensures
            match self@ {
                InitErrorView::Invalid(t) => m@ == t,
                InitErrorView::AlreadyExists(t) => m@ == t,
                InitErrorView::AnswersDoNotMatch => m@ == "the answers are not those of this subcommand"@,
            },
    {
        match self {
            InitError::Invalid(t) => t.clone(),
            InitError::AlreadyExists(t) => t.clone(),
            InitError::AnswersDoNotMatch => String::from_str("the answers are not those of this subcommand"),
        }
    }
}

/// A plan or an error, as views.
pub open spec fn plan_result(r: Result<InitPlan, InitError>) -> Result<PlanView, InitErrorView> {
    match r {
        Ok(p) => Ok(p@),
        Err(e) => Err(e@),
    }
}

/// Creating a cluster: the plan when the answers are acceptable and the
/// directory is new, the first error otherwise.
pub open spec fn spec_init_cluster(a: ClusterAnswers) -> Result<PlanView, InitErrorView> {
    if cluster_answers_valid(a) && !a.directory_exists {
        Ok(cluster_plan(a))
    } else {
        Err(cluster_error(a))
    }
}

fn cluster_yaml_text(a: &ClusterAnswers) -> (t: String)
    ensures
        t@ == cluster_yaml(
            a.name@,
            cloud_name(a.cloud),
            a.region@,
            environment_name(a.environment),
            if a.cloud is Aws {
                match a.aws_account_id {
                    Some(id) => Some(id@),
                    None => None,
                }
            } else {
                None
            },
        ),
{
    let cloud = a.cloud.name();
    let env = a.environment.name();
    let mut v: Vec<char> = Vec::new();
    append_str(&mut v, CLUSTER_YAML_HEAD);
    append_str(&mut v, a.name.as_str());
    append_str(&mut v, CLUSTER_YAML_CLOUD);
    append_str(&mut v, cloud);
    append_str(&mut v, CLUSTER_YAML_REGION);
    append_str(&mut v, a.region.as_str());
    append_str(&mut v, CLUSTER_YAML_ENVIRONMENT);
    append_str(&mut v, env);
    append_str(&mut v, CLUSTER_YAML_OVERLAYS);
    append_str(&mut v, cloud);
    append_str(&mut v, CLUSTER_YAML_OVERLAY_ITEM);
    append_str(&mut v, env);
    append_str(&mut v, CLUSTER_YAML_FACTS_END);
    let ghost facts = v@;
    if let Cloud::Aws = a.cloud {
        if let Some(id) = &a.aws_account_id {
            append_str(&mut v, AWS_BLOCK_HEAD);
            append_str(&mut v, id.as_str());
            append_str(&mut v, AWS_BLOCK_TAIL);
        }
    }
    let ghost with_account = v@;
    append_str(&mut v, CLUSTER_YAML_TENANTS);
    assert(v@ =~= with_account + CLUSTER_YAML_TENANTS@);
    string_of(&v)
}

/// Creating a cluster: its directory with an `overlays` directory and a
/// `cluster.yaml`; refused for a bad name or account id, or when the
/// directory is already there.
pub fn init_cluster(a: &ClusterAnswers) -> (r: Result<InitPlan, InitError>)
    ensures
        plan_result(r) == spec_init_cluster(*a),
{
    if let Err(m) = validate_name("Cluster", a.name.as_str()) {
        return Err(InitError::Invalid(m));
    }
    if let Cloud::Aws = a.cloud {
        match &a.aws_account_id {
            Some(id) => {
                if let Err(m) = validate_account_id(id.as_str()) {
                    return Err(InitError::Invalid(m));
                }
            },
            None => {
                return Err(InitError::Invalid(String::from_str("AWS Account ID must be 12 digits")));
            },
        }
    }
    let d = child(CLUSTERS_DIR, a.name.as_str());
    proof {
        reveal_strlit("platform/clusters");
    }
    assert(d@ == cluster_dir(a.name@));
    if a.directory_exists {
        let mut m: Vec<char> = Vec::new();
        append_str(&mut m, "Cluster directory '");
        append_str(&mut m, d.as_str());
        append_str(&mut m, "' already exists");
        return Err(InitError::AlreadyExists(string_of(&m)));
    }
    let mut dirs: Vec<String> = Vec::new();
    dir_push(&mut dirs, d.clone());
    dir_push(&mut dirs, join_text(d.as_str(), "/overlays"));
    let mut files: Vec<PlannedFile> = Vec::new();
    file_views_push(
        &mut files,
        PlannedFile { path: join_text(d.as_str(), "/cluster.yaml"), content: FileContent::Text(cluster_yaml_text(a)) },
    );
    let mut done: Vec<char> = Vec::new();
    append_str(&mut done, "Cluster '");
    append_str(&mut done, a.name.as_str());
    append_str(&mut done, "' created");
    let plan = InitPlan {
        dirs,
        files,
        done: string_of(&done),
        summary: d,
        hint: Some(String::from_str("edit cluster.yaml to customize, then: fedcore bootstrap --cluster <path>")),
    };
    assert(plan@.dirs =~= cluster_plan(*a).dirs);
    assert(plan@.files =~= cluster_plan(*a).files);
    Ok(plan)
}

/// Two texts one after the other.
fn join_text(a: &str, b: &str) -> (r: String)
    ensures
        r@ == a@ + b@,
{
    let mut v: Vec<char> = Vec::new();
    append_str(&mut v, a);
    append_str(&mut v, b);
    string_of(&v)
}

// ───────────────────────────── component ─────────────────────────────

/// A new component's directory.
pub open spec fn component_dir(name: Seq<char>) -> Seq<char> {
    COMPONENTS_DIR@ + "/"@ + name
}

/// The directory a new component gets.
pub fn component_directory(name: &str) -> (d: String)
    ensures
        d@ == component_dir(name@),
{
    let mut v: Vec<char> = Vec::new();
    append_str(&mut v, COMPONENTS_DIR);
    append_str(&mut v, "/");
    append_str(&mut v, name);
    string_of(&v)
}

/// The namespace manifest of a new component, named and labelled after it.
pub open spec fn namespace_yaml(name: Seq<char>) -> Seq<char> {
    NAMESPACE_YAML_HEAD@ + name + NAMESPACE_YAML_LABEL@ + name + NAMESPACE_YAML_END@
}

/// The default data values of a new Helm component.
pub open spec fn default_values_yaml(name: Seq<char>) -> Seq<char> {
    DEFAULT_VALUES_HEAD@ + name + DEFAULT_VALUES_TAIL@
}

/// The README of a new component.
pub open spec fn component_readme(name: Seq<char>, kind: Seq<char>) -> Seq<char> {
    COMPONENT_README_HEAD@ + name + COMPONENT_README_TYPE@ + kind + COMPONENT_README_TAIL@
}

/// The `component.yaml` of a new component, by how it is deployed.
pub open spec fn component_yaml(name: Seq<char>, kind: ComponentKind, namespace: Seq<char>) -> Seq<char> {
    match kind {
        ComponentKind::Helm(c) => HELM_YAML_HEAD@ + c.chart_repo@ + HELM_YAML_CHART@ + c.chart_name@
            + HELM_YAML_VERSION@ + c.chart_version@ + HELM_YAML_MIRROR@ + c.chart_repo@
            + HELM_YAML_RELEASE@ + name + HELM_YAML_NAMESPACE@ + namespace + HELM_YAML_TAIL@,
        ComponentKind::Manifests => MANIFESTS_YAML_HEAD@ + namespace + MANIFESTS_YAML_DESCRIPTION@ + name
            + MANIFESTS_YAML_TAIL@,
        ComponentKind::Kustomize => KUSTOMIZE_YAML_HEAD@ + namespace + KUSTOMIZE_YAML_TAIL@,
    }
}

/// What creating a component consists of: its directory with `base` and
/// `overlays`, its `component.yaml`, a namespace manifest, default values
/// for a Helm component, and a README.
pub open spec fn component_plan(a: ComponentAnswers) -> PlanView {
    let d = component_dir(a.name@);
    let head = seq![
        (d + "/component.yaml"@, FileView::Text(component_yaml(a.name@, a.kind, a.namespace@))),
        (d + "/base/namespace.yaml"@, FileView::Text(namespace_yaml(a.name@))),
    ];
    let values = if a.kind is Helm {
        seq![(d + "/default-values.yaml"@, FileView::Text(default_values_yaml(a.name@)))]
    } else {
        Seq::empty()
    };
    PlanView {
        dirs: seq![d, d + "/base"@, d + "/overlays"@],
        files: head + values + seq![(d + "/README.md"@, FileView::Text(component_readme(a.name@, kind_name(a.kind))))],
        done: "Component '"@ + a.name@ + "' created"@,
        summary: d,
        hint: Some("edit component.yaml to customize, add manifests to base/"@),
    }
}

/// Creating a component: the plan when the name is acceptable and the
/// directory is new, the first error otherwise.
pub open spec fn spec_init_component(a: ComponentAnswers) -> Result<PlanView, InitErrorView> {
    if !valid_name(a.name@) {
        Err(InitErrorView::Invalid(name_error("Component"@, a.name@)))
    } else if a.directory_exists {
        Err(InitErrorView::AlreadyExists("Component directory '"@ + component_dir(a.name@) + "' already exists"@))
    } else {
        Ok(component_plan(a))
    }
}

fn component_yaml_text(a: &ComponentAnswers) -> (t: String)
    ensures
        t@ == component_yaml(a.name@, a.kind, a.namespace@),
{
    let mut v: Vec<char> = Vec::new();
    match &a.kind {
        ComponentKind::Helm(c) => {
            append_str(&mut v, HELM_YAML_HEAD);
            append_str(&mut v, c.chart_repo.as_str());
            append_str(&mut v, HELM_YAML_CHART);
            append_str(&mut v, c.chart_name.as_str());
            append_str(&mut v, HELM_YAML_VERSION);
            append_str(&mut v, c.chart_version.as_str());
            append_str(&mut v, HELM_YAML_MIRROR);
            append_str(&mut v, c.chart_repo.as_str());
            append_str(&mut v, HELM_YAML_RELEASE);
            append_str(&mut v, a.name.as_str());
            append_str(&mut v, HELM_YAML_NAMESPACE);
            append_str(&mut v, a.namespace.as_str());
            append_str(&mut v, HELM_YAML_TAIL);
        },
        ComponentKind::Manifests => {
            append_str(&mut v, MANIFESTS_YAML_HEAD);
            append_str(&mut v, a.namespace.as_str());
            append_str(&mut v, MANIFESTS_YAML_DESCRIPTION);
            append_str(&mut v, a.name.as_str());
            append_str(&mut v, MANIFESTS_YAML_TAIL);
        },
        ComponentKind::Kustomize => {
            append_str(&mut v, KUSTOMIZE_YAML_HEAD);
            append_str(&mut v, a.namespace.as_str());
            append_str(&mut v, KUSTOMIZE_YAML_TAIL);
        },
    }
    string_of(&v)
}

fn kind_text(k: &ComponentKind) -> (n: &'static str)
    ensures
        n@ == kind_name(*k),
{
    match k {
        ComponentKind::Helm(_) => "helm",
        ComponentKind::Manifests => "manifests",
        ComponentKind::Kustomize => "kustomize",
    }
}

/// Creating a component; refused for a bad name, or when its directory is
/// already there.
pub fn init_component(a: &ComponentAnswers) -> (r: Result<InitPlan, InitError>)
    ensures
        plan_result(r) == spec_init_component(*a),
{
    if let Err(m) = validate_name("Component", a.name.as_str()) {
        return Err(InitError::Invalid(m));
    }
    let d = child(COMPONENTS_DIR, a.name.as_str());
    proof {
        reveal_strlit("platform/components");
    }
    assert(d@ == component_dir(a.name@));
    if a.directory_exists {
        let mut m: Vec<char> = Vec::new();
        append_str(&mut m, "Component directory '");
        append_str(&mut m, d.as_str());
        append_str(&mut m, "' already exists");
        return Err(InitError::AlreadyExists(string_of(&m)));
    }
    let mut dirs: Vec<String> = Vec::new();
    dir_push(&mut dirs, d.clone());
    dir_push(&mut dirs, join_text(d.as_str(), "/base"));
    dir_push(&mut dirs, join_text(d.as_str(), "/overlays"));
    let mut files: Vec<PlannedFile> = Vec::new();
    file_views_push(
        &mut files,
        PlannedFile { path: join_text(d.as_str(), "/component.yaml"), content: FileContent::Text(component_yaml_text(a)) },
    );
    let mut ns: Vec<char> = Vec::new();
    append_str(&mut ns, NAMESPACE_YAML_HEAD);
    append_str(&mut ns, a.name.as_str());
    append_str(&mut ns, NAMESPACE_YAML_LABEL);
    append_str(&mut ns, a.name.as_str());
    append_str(&mut ns, NAMESPACE_YAML_END);
    file_views_push(
        &mut files,
        PlannedFile { path: join_text(d.as_str(), "/base/namespace.yaml"), content: FileContent::Text(string_of(&ns)) },
    );
    let ghost head = file_views(files@);
    if let ComponentKind::Helm(_) = a.kind {
        let mut dv: Vec<char> = Vec::new();
        append_str(&mut dv, DEFAULT_VALUES_HEAD);
        append_str(&mut dv, a.name.as_str());
        append_str(&mut dv, DEFAULT_VALUES_TAIL);
        file_views_push(
            &mut files,
            PlannedFile { path: join_text(d.as_str(), "/default-values.yaml"), content: FileContent::Text(string_of(&dv)) },
        );
    }
    let ghost with_values = file_views(files@);
    let mut readme: Vec<char> = Vec::new();
    append_str(&mut readme, COMPONENT_README_HEAD);
    append_str(&mut readme, a.name.as_str());
    append_str(&mut readme, COMPONENT_README_TYPE);
    append_str(&mut readme, kind_text(&a.kind));
    append_str(&mut readme, COMPONENT_README_TAIL);
    file_views_push(
        &mut files,
        PlannedFile { path: join_text(d.as_str(), "/README.md"), content: FileContent::Text(string_of(&readme)) },
    );
    let mut done: Vec<char> = Vec::new();
    append_str(&mut done, "Component '");
    append_str(&mut done, a.name.as_str());
    append_str(&mut done, "' created");
    let plan = InitPlan {
        dirs,
        files,
        done: string_of(&done),
        summary: d,
        hint: Some(String::from_str("edit component.yaml to customize, add manifests to base/")),
    };
    assert(plan@.dirs =~= component_plan(*a).dirs);
    assert(plan@.files =~= component_plan(*a).files);
    Ok(plan)
}

// ───────────────────────────── laws ─────────────────────────────

proof fn lemma_under(d: Seq<char>, rest: Seq<char>)
    requires
        rest.len() > 0,
        rest[0] == '/',
    ensures
        starts_with(d + rest, d + "/"@),
{
    reveal_strlit("/");
    assert((d + rest).subrange(0, d.len() + 1int) =~= d + "/"@);
}

/// Everything a new cluster consists of lies inside its directory.
pub proof fn law_cluster_plan_stays_in_its_directory(a: ClusterAnswers)
    ensures
        cluster_plan(a).dirs[0] == cluster_dir(a.name@),
        forall|i: int| 1 <= i < cluster_plan(a).dirs.len() ==> starts_with(#[trigger] cluster_plan(a).dirs[i], cluster_dir(a.name@) + "/"@),
        forall|i: int| 0 <= i < cluster_plan(a).files.len() ==> starts_with(#[trigger] cluster_plan(a).files[i].0, cluster_dir(a.name@) + "/"@),
{
    let d = cluster_dir(a.name@);
    reveal_strlit("/overlays");
    reveal_strlit("/cluster.yaml");
    lemma_under(d, "/overlays"@);
    lemma_under(d, "/cluster.yaml"@);
}

/// Everything a new component consists of lies inside its directory.
pub proof fn law_component_plan_stays_in_its_directory(a: ComponentAnswers)
    ensures
        component_plan(a).dirs[0] == component_dir(a.name@),
        forall|i: int| 1 <= i < component_plan(a).dirs.len() ==> starts_with(#[trigger] component_plan(a).dirs[i], component_dir(a.name@) + "/"@),
        forall|i: int| 0 <= i < component_plan(a).files.len() ==> starts_with(#[trigger] component_plan(a).files[i].0, component_dir(a.name@) + "/"@),
{
    let d = component_dir(a.name@);
    reveal_strlit("/base");
    reveal_strlit("/overlays");
    reveal_strlit("/component.yaml");
    reveal_strlit("/base/namespace.yaml");
    reveal_strlit("/default-values.yaml");
    reveal_strlit("/README.md");
    lemma_under(d, "/base"@);
    lemma_under(d, "/overlays"@);
    lemma_under(d, "/component.yaml"@);
    lemma_under(d, "/base/namespace.yaml"@);
    lemma_under(d, "/default-values.yaml"@);
    lemma_under(d, "/README.md"@);
    let p = component_plan(a);
    assert forall|i: int| 0 <= i < p.files.len() implies starts_with(#[trigger] p.files[i].0, d + "/"@) by {
        if a.kind is Helm {
            assert(p.files.len() == 4);
        } else {
            assert(p.files.len() == 3);
        }
    }
}

// ───────────────────────────── project ─────────────────────────────

/// The README at the root of a new project.
pub open spec fn project_readme(name: Seq<char>) -> Seq<char> {
    PROJECT_README_HEAD@ + name + PROJECT_README_TREE@ + name + PROJECT_README_TAIL@
}

/// The directories of a new project, the project directory first.
pub open spec fn project_dirs(p: Seq<char>) -> Seq<Seq<char>> {
    seq![
        p,
        child_path(p, "platform"@),
        child_path(p, "platform/clusters"@),
        child_path(p, "platform/components"@),
        child_path(p, "platform/components/tenant-instances"@),
        child_path(p, "platform/components/tenant-instances/base"@),
        child_path(p, "platform/components/capsule"@),
        child_path(p, "platform/components/capsule/base"@),
        child_path(p, "platform/components/kro"@),
        child_path(p, "platform/components/kro/base"@),
        child_path(p, "platform/bootstrap"@),
        child_path(p, "platform/bootstrap/component-sources"@),
        child_path(p, "platform/bootstrap/component-sources/base"@),
        child_path(p, "platform/rgds"@),
        child_path(p, "platform/rgds/namespace"@),
        child_path(p, "platform/rgds/namespace/base"@),
        child_path(p, "docs"@),
        child_path(p, "platform/clusters/example-cluster"@),
        child_path(p, "platform/clusters/example-cluster/overlays"@),
    ]
}

/// A file of a new project that is a copy of the platform file at the same
/// place.
pub open spec fn same_template(p: Seq<char>, rel: Seq<char>) -> (Seq<char>, FileView) {
    (child_path(p, rel), FileView::Template(rel))
}

/// The files of a new project, in the order they are written: READMEs, the
/// cluster schema, documentation stubs, the bootstrap sources, the default
/// components, and an example cluster.
pub open spec fn project_files(p: Seq<char>) -> Seq<(Seq<char>, FileView)> {
    seq![
        (child_path(p, "README.md"@), FileView::Text(project_readme(p))),
        (child_path(p, "platform/clusters/README.md"@), FileView::Text(CLUSTERS_README@)),
        (child_path(p, "platform/clusters/schema.yaml"@), FileView::Template("platform/clusters/schema-minimal.yaml"@)),
        (child_path(p, "platform/components/README.md"@), FileView::Text(COMPONENTS_README@)),
        (child_path(p, "docs/README.md"@), FileView::Text(DOCS_README@)),
        (child_path(p, "docs/PROJECT_STRUCTURE.md"@), FileView::Text(DOCS_PROJECT_STRUCTURE@)),
        (child_path(p, "docs/COMMANDS.md"@), FileView::Text(DOCS_COMMANDS@)),
        (child_path(p, "docs/WORKFLOW.md"@), FileView::Text(DOCS_WORKFLOW@)),
        same_template(p, "platform/bootstrap/component-sources/base/README.md"@),
        same_template(p, "platform/bootstrap/component-sources/base/component-sources.yaml"@),
        (
            child_path(p, "platform/bootstrap/component-sources/base/flux-ca-certificates.yaml"@),
            FileView::Template("platform/bootstrap/cluster/base/flux-ca-certificates.yaml"@),
        ),
        same_template(p, "platform/components/tenant-instances/README.md"@),
        same_template(p, "platform/components/tenant-instances/base/tenant-instances.yaml"@),
        same_template(p, "platform/rgds/namespace/README.md"@),
        same_template(p, "platform/rgds/namespace/base/namespace-rgd.yaml"@),
        same_template(p, "platform/components/capsule/README.md"@),
        same_template(p, "platform/components/capsule/component.yaml"@),
        same_template(p, "platform/components/capsule/default-values.yaml"@),
        same_template(p, "platform/components/capsule/base/namespace.yaml"@),
        same_template(p, "platform/components/kro/README.md"@),
        same_template(p, "platform/components/kro/base/install.yaml"@),
        same_template(p, "platform/components/kro/base/core-resources-rbac.yaml"@),
        same_template(p, "platform/components/kro/base/platform-fedcore-rbac.yaml"@),
        same_template(p, "platform/components/kro/base/default-clusterroles-rbac.yaml"@),
        same_template(p, "platform/components/kro/base/enable-crd-deletion.yaml"@),
        same_template(p, "platform/components/kro/base/image-overlay.yaml"@),
        (child_path(p, "platform/clusters/example-cluster/cluster.yaml"@), FileView::Text(EXAMPLE_CLUSTER_YAML@)),
        (
            child_path(p, "platform/clusters/example-cluster/overlays/resource-limits.yaml"@),
            FileView::Text(EXAMPLE_OVERLAY_YAML@),
        ),
    ]
}

/// What creating a project consists of.
pub open spec fn project_plan(name: Seq<char>) -> PlanView {
    PlanView {
        dirs: project_dirs(name),
        files: project_files(name),
        done: "Project initialized"@,
        summary: "cd "@ + name + " && fedcore init cluster"@,
        hint: None,
    }
}

/// Creating a project: the plan, unless something of that name is there.
pub open spec fn spec_init_project(a: ProjectAnswers) -> Result<PlanView, InitErrorView> {
    if a.directory_exists {
        Err(InitErrorView::AlreadyExists("Directory '"@ + a.name@ + "' already exists"@))
    } else {
        Ok(project_plan(a.name@))
    }
}

fn add_dir(dirs: &mut Vec<String>, p: &str, rel: &str)
    ensures
        crate::text::str_views(final(dirs)@) == crate::text::str_views(old(dirs)@).push(child_path(p@, rel@)),
{
    dir_push(dirs, child(p, rel));
}

fn add_text(files: &mut Vec<PlannedFile>, p: &str, rel: &str, text: String)
    ensures
        file_views(final(files)@) == file_views(old(files)@).push((child_path(p@, rel@), FileView::Text(text@))),
{
    file_views_push(files, PlannedFile { path: child(p, rel), content: FileContent::Text(text) });
}

fn add_template(files: &mut Vec<PlannedFile>, p: &str, rel: &str, source: &str)
    ensures
        file_views(final(files)@) == file_views(old(files)@).push((child_path(p@, rel@), FileView::Template(source@))),
{
    file_views_push(files, PlannedFile { path: child(p, rel), content: FileContent::Template(String::from_str(source)) });
}

/// The directories of a new project.
fn project_dir_list(p: &str) -> (dirs: Vec<String>)
    ensures
        crate::text::str_views(dirs@) == project_dirs(p@),
{
    let mut dirs: Vec<String> = Vec::new();
    dir_push(&mut dirs, String::from_str(p));
    add_dir(&mut dirs, p, "platform");
    add_dir(&mut dirs, p, "platform/clusters");
    add_dir(&mut dirs, p, "platform/components");
    add_dir(&mut dirs, p, "platform/components/tenant-instances");
    add_dir(&mut dirs, p, "platform/components/tenant-instances/base");
    add_dir(&mut dirs, p, "platform/components/capsule");
    add_dir(&mut dirs, p, "platform/components/capsule/base");
    add_dir(&mut dirs, p, "platform/components/kro");
    add_dir(&mut dirs, p, "platform/components/kro/base");
    add_dir(&mut dirs, p, "platform/bootstrap");
    add_dir(&mut dirs, p, "platform/bootstrap/component-sources");
    add_dir(&mut dirs, p, "platform/bootstrap/component-sources/base");
    add_dir(&mut dirs, p, "platform/rgds");
    add_dir(&mut dirs, p, "platform/rgds/namespace");
    add_dir(&mut dirs, p, "platform/rgds/namespace/base");
    add_dir(&mut dirs, p, "docs");
    add_dir(&mut dirs, p, "platform/clusters/example-cluster");
    add_dir(&mut dirs, p, "platform/clusters/example-cluster/overlays");
    assert(crate::text::str_views(dirs@) =~= project_dirs(p@));
    dirs
}

/// The files of a new project.
#[verifier::rlimit(40)]
fn project_file_list(p: &str) -> (files: Vec<PlannedFile>)
    ensures
        file_views(files@) == project_files(p@),
{
    let mut files: Vec<PlannedFile> = Vec::new();
    let mut readme: Vec<char> = Vec::new();
    append_str(&mut readme, PROJECT_README_HEAD);
    append_str(&mut readme, p);
    append_str(&mut readme, PROJECT_README_TREE);
    append_str(&mut readme, p);
    append_str(&mut readme, PROJECT_README_TAIL);
    add_text(&mut files, p, "README.md", string_of(&readme));
    add_text(&mut files, p, "platform/clusters/README.md", String::from_str(CLUSTERS_README));
    add_template(&mut files, p, "platform/clusters/schema.yaml", "platform/clusters/schema-minimal.yaml");
    add_text(&mut files, p, "platform/components/README.md", String::from_str(COMPONENTS_README));
    add_text(&mut files, p, "docs/README.md", String::from_str(DOCS_README));
    add_text(&mut files, p, "docs/PROJECT_STRUCTURE.md", String::from_str(DOCS_PROJECT_STRUCTURE));
    add_text(&mut files, p, "docs/COMMANDS.md", String::from_str(DOCS_COMMANDS));
    add_text(&mut files, p, "docs/WORKFLOW.md", String::from_str(DOCS_WORKFLOW));
    add_template(
        &mut files,
        p,
        "platform/bootstrap/component-sources/base/README.md",
        "platform/bootstrap/component-sources/base/README.md",
    );
    add_template(
        &mut files,
        p,
        "platform/bootstrap/component-sources/base/component-sources.yaml",
        "platform/bootstrap/component-sources/base/component-sources.yaml",
    );
    add_template(
        &mut files,
        p,
        "platform/bootstrap/component-sources/base/flux-ca-certificates.yaml",
        "platform/bootstrap/cluster/base/flux-ca-certificates.yaml",
    );
    add_template(
        &mut files,
        p,
        "platform/components/tenant-instances/README.md",
        "platform/components/tenant-instances/README.md",
    );
    add_template(
        &mut files,
        p,
        "platform/components/tenant-instances/base/tenant-instances.yaml",
        "platform/components/tenant-instances/base/tenant-instances.yaml",
    );
    add_template(&mut files, p, "platform/rgds/namespace/README.md", "platform/rgds/namespace/README.md");
    add_template(
        &mut files,
        p,
        "platform/rgds/namespace/base/namespace-rgd.yaml",
        "platform/rgds/namespace/base/namespace-rgd.yaml",
    );
    add_template(&mut files, p, "platform/components/capsule/README.md", "platform/components/capsule/README.md");
    add_template(
        &mut files,
        p,
        "platform/components/capsule/component.yaml",
        "platform/components/capsule/component.yaml",
    );
    add_template(
        &mut files,
        p,
        "platform/components/capsule/default-values.yaml",
        "platform/components/capsule/default-values.yaml",
    );
    add_template(
        &mut files,
        p,
        "platform/components/capsule/base/namespace.yaml",
        "platform/components/capsule/base/namespace.yaml",
    );
    add_template(&mut files, p, "platform/components/kro/README.md", "platform/components/kro/README.md");
    add_template(
        &mut files,
        p,
        "platform/components/kro/base/install.yaml",
        "platform/components/kro/base/install.yaml",
    );
    add_template(
        &mut files,
        p,
        "platform/components/kro/base/core-resources-rbac.yaml",
        "platform/components/kro/base/core-resources-rbac.yaml",
    );
    add_template(
        &mut files,
        p,
        "platform/components/kro/base/platform-fedcore-rbac.yaml",
        "platform/components/kro/base/platform-fedcore-rbac.yaml",
    );
    add_template(
        &mut files,
        p,
        "platform/components/kro/base/default-clusterroles-rbac.yaml",
        "platform/components/kro/base/default-clusterroles-rbac.yaml",
    );
    add_template(
        &mut files,
        p,
        "platform/components/kro/base/enable-crd-deletion.yaml",
        "platform/components/kro/base/enable-crd-deletion.yaml",
    );
    add_template(
        &mut files,
        p,
        "platform/components/kro/base/image-overlay.yaml",
        "platform/components/kro/base/image-overlay.yaml",
    );
    add_text(&mut files, p, "platform/clusters/example-cluster/cluster.yaml", String::from_str(EXAMPLE_CLUSTER_YAML));
    add_text(
        &mut files,
        p,
        "platform/clusters/example-cluster/overlays/resource-limits.yaml",
        String::from_str(EXAMPLE_OVERLAY_YAML),
    );
    assert(file_views(files@) =~= project_files(p@));
    files
}

/// Creating a project; refused when something of that name is there.
pub fn init_project(a: &ProjectAnswers) -> (r: Result<InitPlan, InitError>)
    ensures
        plan_result(r) == spec_init_project(*a),
{
    if a.directory_exists {
        let mut m: Vec<char> = Vec::new();
        append_str(&mut m, "Directory '");
        append_str(&mut m, a.name.as_str());
        append_str(&mut m, "' already exists");
        return Err(InitError::AlreadyExists(string_of(&m)));
    }
    let mut summary: Vec<char> = Vec::new();
    append_str(&mut summary, "cd ");
    append_str(&mut summary, a.name.as_str());
    append_str(&mut summary, " && fedcore init cluster");
    let plan = InitPlan {
        dirs: project_dir_list(a.name.as_str()),
        files: project_file_list(a.name.as_str()),
        done: String::from_str("Project initialized"),
        summary: string_of(&summary),
        hint: None,
    };
    Ok(plan)
}

// ───────────────────────────── dispatch ─────────────────────────────

/// What `init` does for a subcommand and the answers given to its
/// questions.
pub open spec fn spec_execute(subcommand: InitSubcommand, answers: InitAnswers) -> Result<PlanView, InitErrorView> {
    match (subcommand, answers) {
        (InitSubcommand::Project, InitAnswers::Project(a)) => spec_init_project(a),
        (InitSubcommand::Cluster, InitAnswers::Cluster(a)) => spec_init_cluster(a),
        (InitSubcommand::Component, InitAnswers::Component(a)) => spec_init_component(a),
        _ => Err(InitErrorView::AnswersDoNotMatch),
    }
}

/// Runs the subcommand on its answers.
pub fn execute(subcommand: &InitSubcommand, answers: &InitAnswers) -> (r: Result<InitPlan, InitError>)
    ensures
        plan_result(r) == spec_execute(*subcommand, *answers),
{
    match (subcommand, answers) {
        (InitSubcommand::Project, InitAnswers::Project(a)) => init_project(a),
        (InitSubcommand::Cluster, InitAnswers::Cluster(a)) => init_cluster(a),
        (InitSubcommand::Component, InitAnswers::Component(a)) => init_component(a),
        _ => Err(InitError::AnswersDoNotMatch),
    }
}

}
