# turborepo_discovery

Task identifiers and package discovery strategies for a monorepo, verified with
Verus.

- `task_id`: task names as they are configured (`build`, `web#build`) and task
  identifiers as they appear in the task graph; `task_laws` states what holds of
  them together.
- `local`, `fallback`, `caching`: discovery strategies. Each is a state machine
  that says which action to perform next and takes the outcome back.
- `discovery`, `hashes`: what discovery finds, and how it can fail.
- `paths`, `package_graph`, `package_manager`, `text`: what these rest on.

The code under `app/` performs the actions: it reads the disk, waits for other
strategies and keeps time. It also holds the traits that embedders implement,
and the forms of the types that are printed and serialised.
