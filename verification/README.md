# notebook_ci

Continuous building of notebook images: a server keeps the notebooks of a
Kubeflow cluster and the git repositories they are built from; a monitor
watches each repository, rebuilds the image when the watched path changes,
pushes it to each notebook's registry and restarts the pods that sync
automatically.

- `src/` is the verified library (Verus): the repository address grammar,
  the steps of a monitoring round, of a build and of a pod restart as state
  machines, the repository map and logs of the server, the frontend data, and
  the commands and lookups made against the cluster.
- `app/` runs the programs around it: the HTTP server over PostgreSQL, the
  monitor threads, the web frontend, and a file-fed monitor.
- `tests/` runs the library on concrete values.
