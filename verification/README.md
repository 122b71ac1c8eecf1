# atlas_local_lib_py

The logic of the `atlas_local` Python library for MongoDB Atlas Local
deployments, verified with Verus, and the Python extension module around it.

- `src/` — the verified library:
  - `models.rs`: plain-value models of port bindings, image tags, creation
    options and deployments;
  - `create_deployment_options.rs`, `start.rs`, `logs.rs`: checking the
    arguments of `create`/`get_or_create`, `start` and `logs`;
  - `option_conflicts.rs`: whether an existing deployment holds the requested
    options, and the error listing each conflict;
  - `get_or_create.rs`: the decisions of `get_or_create`, as steps from a
    state and the outcome of a Docker call to the next state and call;
  - `python_error.rs`: the exception hierarchy and the exception raised for
    each failure of an operation;
  - `deployment.rs`: what Python reads of a deployment;
  - `outside.rs`: the items whose contracts Verus believes (calls into
    `core::net`, `atlas_local` and `str`'s `Debug`).
- `app/` — the PyO3 module: the Python class and exceptions, the Tokio
  runtime, the Docker calls, and the conversions to and from `atlas_local`'s
  types.
- `tests/` — tests of the library.
