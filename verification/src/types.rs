//! The configuration and build-matrix records that the commands read and write.
use vstd::prelude::*;

verus! {

/// The cluster's Flux settings.
pub struct FluxConfig {
    pub install: bool,
    pub namespace: String,
    pub exclude_kinds: Vec<String>,
}

/// Flux is installed unless a cluster says otherwise.
pub fn default_true() -> (b: bool)
    ensures
        b,
{
    true
}

/// The namespace Flux goes to unless a cluster names another.
pub fn default_flux_namespace() -> (ns: String)
    ensures
        ns@ == "flux-system"@,
{
    String::from_str("flux-system")
}

impl Default for FluxConfig {
    fn default() -> (c: Self)
        ensures
            c.install,
            c.namespace@ == "flux-system"@,
            c.exclude_kinds@.len() == 0,
    {
        FluxConfig {
            install: default_true(),
            namespace: default_flux_namespace(),
            exclude_kinds: Vec::new(),
        }
    }
}

/// A component that a cluster enables.
pub struct ComponentEntry {
    pub name: String,
}

/// What the commands read of a cluster's `cluster.yaml`.
pub struct ClusterConfig {
    pub cluster_name: String,
    pub flux: FluxConfig,
    pub components: Vec<ComponentEntry>,
}

/// A component's Helm chart settings. The chart values are kept as the YAML
/// text that is handed to `helm template`.
pub struct HelmConfig {
    pub chart: String,
    pub version: String,
    pub source_repo: String,
    pub resolved_chart_ref: String,
    pub namespace: Option<String>,
    pub values_yaml: String,
    pub flags: Vec<String>,
}

/// A component definition after the pre-render overlays.
pub struct MergedComponent {
    pub helm: Option<HelmConfig>,
}

/// One artifact to build: a component for a cluster.
pub struct BuildMatrixEntry {
    pub artifact_path: String,
    pub cluster: String,
    pub cluster_name: String,
    pub target_name: String,
    pub component_id: String,
    pub component_namespace: String,
    pub component_data_values_yaml: String,
    pub overlays: Vec<String>,
}

pub struct ClusterMatrixEntry {
    pub cluster: String,
    pub cluster_name: String,
}

pub struct BuildMatrix {
    pub build_matrix: Vec<BuildMatrixEntry>,
    pub cluster_matrix: Vec<ClusterMatrixEntry>,
}

}
