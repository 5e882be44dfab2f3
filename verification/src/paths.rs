//! Where the platform's files live, relative to the project root.
use vstd::prelude::*;

verus! {

pub const CLUSTERS_DIR: &'static str = "platform/clusters";

pub const COMPONENTS_DIR: &'static str = "platform/components";

pub const RGDS_DIR: &'static str = "platform/rgds";

pub const CLUSTER_SCHEMA: &'static str = "platform/clusters/schema.yaml";

pub const BOOTSTRAP_SOURCES_BASE: &'static str = "platform/bootstrap/component-sources/base";

pub const BUILD_MATRIX_DIR: &'static str = "platform/build/matrix";

pub const BUILD_PRERENDER_DIR: &'static str = "platform/build/prerender";

pub const DIST_DIR: &'static str = "dist";

pub const HELM_CACHE_DIR: &'static str = ".helm-cache";

}
