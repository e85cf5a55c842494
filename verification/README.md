# ci_monitor

A daemon that tells coding agents when the CI pipeline of their merge request
has finished. Clients register a pipeline over a Unix socket, together with the
tmux pane that their agent runs in. Once the pipeline is done, the agent is
prompted in its pane if the pane shows the same as when watching began; the user
is notified on the desktop as the `--notify` option says.

- `src/` holds every decision, as functions and small state machines whose
  contracts Verus proves. `src/laws/` states what holds of them as a whole.
- `app/` performs the actions that the machines ask for: sockets, processes,
  HTTP, timers.
- `tests/` runs the library on concrete values.

The daemon needs `GITLAB_TOKEN`; `GITLAB_API_URL` says where GitLab's API is if
it is not the public one.
