//! The fixed text of the files that `init` writes, between the values that
//! the answers fill in.
use vstd::prelude::*;

verus! {

pub const CLUSTER_YAML_HEAD: &'static str = "#@data/values\n---\n#! Physical facts\ncluster_name: \"";

pub const CLUSTER_YAML_CLOUD: &'static str = "\"\ncloud: ";

pub const CLUSTER_YAML_REGION: &'static str = "\nregion: ";

pub const CLUSTER_YAML_ENVIRONMENT: &'static str = "\nenvironment: ";

pub const CLUSTER_YAML_OVERLAYS: &'static str = "\noverlays:\n  - ";

pub const CLUSTER_YAML_OVERLAY_ITEM: &'static str = "\n  - ";

pub const CLUSTER_YAML_FACTS_END: &'static str = "\n";

pub const AWS_BLOCK_HEAD: &'static str = "\n#! AWS-specific configuration\naws:\n  account_id: \"";

pub const AWS_BLOCK_TAIL: &'static str = "\"\n  #! Note: Tenant permission boundary is auto-provisioned by platform/components/cloud-permissions\n  #! Policy ARN: arn:aws:iam::{account_id}:policy/{cluster_name}-TenantMaxPermissions\n";

pub const CLUSTER_YAML_TENANTS: &'static str = "\n#! Tenants (Application teams/projects on this cluster)\n#! Add your tenant configurations here\ntenants: []\n  #! Example:\n  #! - name: example-tenant\n  #!   owners:\n  #!     - name: \"team-leads\"\n  #!       kind: Group\n";

pub const NAMESPACE_YAML_HEAD: &'static str = "apiVersion: v1\nkind: Namespace\nmetadata:\n  name: ";

pub const NAMESPACE_YAML_LABEL: &'static str = "\n  labels:\n    name: ";

pub const NAMESPACE_YAML_END: &'static str = "\n";

pub const DEFAULT_VALUES_HEAD: &'static str = "#@data/values\n---\n#! Default values for ";

pub const DEFAULT_VALUES_TAIL: &'static str = " component\n#! Override these in cluster-specific overlays\n\nhelm_repositories:\n  use_mirror: false\n  oci_registry_url: \"oci://registry.example.com/helm-charts\"\n";

pub const COMPONENT_README_HEAD: &'static str = "# ";

pub const COMPONENT_README_TYPE: &'static str = "\n\nComponent type: ";

pub const COMPONENT_README_TAIL: &'static str = "\n\n## Description\n\nAdd a description of this component here.\n\n## Configuration\n\nEdit `component.yaml` to configure this component.\n\n## Overlays\n\nAdd overlays in the `overlays/` directory, named by overlay ID.\nEach cluster's `overlays` list (e.g., `[aws, prod]`) selects which\ndirectories are applied during build.\n\nExample structure:\n```\noverlays/\n  aws/\n    overlay.yaml\n  azure/\n    overlay.yaml\n  prod/\n    overlay.yaml\n```\n";

pub const HELM_YAML_HEAD: &'static str = "#@ load(\"@ytt:data\", \"data\")\n---\n#! Helm chart configuration\nhelm:\n  sourceRepo: ";

pub const HELM_YAML_CHART: &'static str = "\n  chart: ";

pub const HELM_YAML_VERSION: &'static str = "\n  version: \"";

pub const HELM_YAML_MIRROR: &'static str = "\"\n  mirrorRepo: #@ data.values.helm_repositories.oci_registry_url if data.values.helm_repositories.use_mirror else \"";

pub const HELM_YAML_RELEASE: &'static str = "\"\n\n  #! Release configuration\n  release:\n    name: ";

pub const HELM_YAML_NAMESPACE: &'static str = "\n    namespace: ";

pub const HELM_YAML_TAIL: &'static str = "\n\n  #! Values for helm template\n  values:\n    replicaCount: 2\n\n    resources:\n      requests:\n        cpu: 100m\n        memory: 128Mi\n      limits:\n        cpu: 500m\n        memory: 512Mi\n";

pub const MANIFESTS_YAML_HEAD: &'static str = "#@ load(\"@ytt:data\", \"data\")\n---\n#! Namespace configuration\nnamespace: ";

pub const MANIFESTS_YAML_DESCRIPTION: &'static str = "\n\n#! Component description\ndescription: \"Custom Kubernetes manifests for ";

pub const MANIFESTS_YAML_TAIL: &'static str = "\"\n";

pub const KUSTOMIZE_YAML_HEAD: &'static str = "#@ load(\"@ytt:data\", \"data\")\n---\n#! Namespace configuration\nnamespace: ";

pub const KUSTOMIZE_YAML_TAIL: &'static str = "\n\n#! Kustomize configuration\nkustomize:\n  path: base\n";

pub const PROJECT_README_HEAD: &'static str = "# ";

pub const PROJECT_README_TREE: &'static str = "\n\nA FedCore platform deployment project.\n\n## Overview\n\nThis project contains the configuration and infrastructure definitions for deploying and managing Kubernetes clusters using the FedCore platform. FedCore provides a GitOps-based, multi-cloud platform with multi-tenancy support.\n\n## Project Structure\n\n```\n";

pub const PROJECT_README_TAIL: &'static str = "\n├── docs/                    # Documentation\n├── platform/\n│   ├── bootstrap/           # Bootstrap templates for cluster initialization\n│   ├── clusters/            # Cluster configurations\n│   ├── components/          # Component definitions (infrastructure services)\n│   └── rgds/               # Resource Group Definitions\n└── README.md\n```\n\n## Quick Start\n\n1. **Create a cluster configuration:**\n   ```bash\n   fedcore init cluster\n   ```\n\n2. **Create components as needed:**\n   ```bash\n   fedcore init component\n   ```\n\n3. **Build artifacts for your cluster:**\n   ```bash\n   fedcore build --cluster platform/clusters/<cluster-name> --all\n   ```\n\n4. **Bootstrap the cluster:**\n   ```bash\n   fedcore bootstrap --cluster platform/clusters/<cluster-name> --deploy\n   ```\n\n## Documentation\n\n- [Getting Started](docs/README.md) - Introduction and setup guide\n- [Project Structure](docs/PROJECT_STRUCTURE.md) - Detailed directory layout\n- [CLI Commands](docs/COMMANDS.md) - FedCore CLI reference\n- [Development Workflow](docs/WORKFLOW.md) - Day-to-day operations\n\n## Key Concepts\n\n- **Clusters**: Kubernetes clusters with environment-specific configurations\n- **Components**: Infrastructure services (Istio, Capsule, monitoring, etc.)\n- **Bootstrap**: Initial cluster setup and GitOps configuration\n- **OCI Artifacts**: Versioned, immutable component packages\n- **GitOps**: Flux-based declarative deployment\n\n## Support\n\nFor issues, questions, or contributions, refer to the documentation in the `docs/` directory.\n";

pub const CLUSTERS_README: &'static str = "# Clusters\n\nThis directory contains cluster configuration files.\n\n## Creating a New Cluster\n\nUse the CLI to create a new cluster configuration:\n\n```bash\nfedcore init cluster\n```\n\n## Cluster Configuration\n\nEach cluster should have:\n- `cluster.yaml` - Main configuration file\n- `overlays/` - Optional overlay files for customization (optional)\n\nSee the schema at `platform/clusters/schema.yaml` for all available options.\n";

pub const COMPONENTS_README: &'static str = "# Components\n\nThis directory contains component definitions for the platform.\n\n## Creating a New Component\n\nUse the CLI to create a new component:\n\n```bash\nfedcore init component\n```\n\n## Component Types\n\n- **helm** - Helm chart based components\n- **manifests** - Plain Kubernetes manifest components\n- **kustomize** - Kustomize based components\n\nEach component should have a `component.yaml` file describing its metadata and configuration.\n";

pub const EXAMPLE_CLUSTER_YAML: &'static str = "#@data/values\n---\n#! Physical facts\ncluster_name: \"example-cluster\"\ncloud: aws\nregion: us-east-1\nenvironment: dev\noverlays:\n  - aws\n  - dev\n\n#! AWS-specific configuration\naws:\n  account_id: \"123456789012\"\n\n#! Example tenants\ntenants:\n  - name: acme\n    type: namespace\n    description: \"Acme Corp development namespace\"\n    team: \"platform\"\n    cost_center: \"engineering\"\n    owners:\n      - kind: Group\n        name: acme-admins\n    role_bindings:\n      - kind: Group\n        name: acme-admins\n        role: admin\n      - kind: Group\n        name: acme-developers\n        role: edit\n\n#! Components deployed to this cluster\ncomponents:\n  - name: capsule\n    enabled: true\n    version: \"latest\"\n  - name: kro\n    enabled: true\n    version: \"latest\"\n  - name: namespace\n    enabled: true\n    version: \"latest\"\n    depends_on: [kro]\n  - name: tenant-instances\n    enabled: true\n    version: \"latest\"\n    depends_on: [namespace]\n";

pub const EXAMPLE_OVERLAY_YAML: &'static str = "#@ load(\"@ytt:overlay\", \"overlay\")\n\n#! Example Cluster Overlay\n#@overlay/match by=overlay.subset({\"kind\": \"Deployment\"}), expects=\"0+\"\n---\nspec:\n  template:\n    spec:\n      containers:\n      #@overlay/match by=overlay.all, expects=\"1+\"\n      - resources:\n          #@overlay/match missing_ok=True\n          limits:\n            #@overlay/match missing_ok=True\n            cpu: \"1000m\"\n            #@overlay/match missing_ok=True\n            memory: \"1Gi\"\n          #@overlay/match missing_ok=True\n          requests:\n            #@overlay/match missing_ok=True\n            cpu: \"100m\"\n            #@overlay/match missing_ok=True\n            memory: \"128Mi\"\n";

pub const DOCS_README: &'static str = "# FedCore Platform Documentation\n";

pub const DOCS_PROJECT_STRUCTURE: &'static str = "# Project Structure\n";

pub const DOCS_COMMANDS: &'static str = "# FedCore CLI Commands\n";

pub const DOCS_WORKFLOW: &'static str = "# Development Workflow\n";

}
