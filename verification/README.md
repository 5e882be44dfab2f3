# fedcore

`fedcore` is a command-line tool for a Kubernetes platform repository laid
out as clusters, components and resource-graph definitions. It renders
component artifacts per cluster, bootstraps clusters with Flux, manages Helm
charts and mirrors their images, inspects what is deployed, compares builds,
shows cluster status, validates the repository and scaffolds new clusters,
components and projects.

## Layout

- `src/` is the library, verified with Verus. Each command's decisions live
  there as functions with contracts: building command lines, planning which
  artifacts to build or push, reading JSON documents, editing manifests,
  rendering reports, and the state machine that pushes one chart. Public
  proof functions named `law_*` state properties that hold across calls.
  Calls into `regex` and `similar` go through small trusted wrappers whose
  contracts say what the crates document.
- `tests/` exercises the library on concrete values.
- `app/` is the program around the library: argument parsing, files,
  processes, environment variables, terminal output and thread pools. It
  performs the I/O that the library's functions ask for and hands their
  results back.
