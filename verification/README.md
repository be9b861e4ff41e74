# agentd

A daemon that orchestrates coding-agent sessions inside tmux: a control
socket for the command line and the dashboard, one socket per agent plugin,
a SQLite store of sessions, events and plugins, a tmux status line and a
terminal dashboard.

## Layout

- `src/` — the verified library (Verus). Everything that decides lives here
  with its contract: the JSON-RPC handlers of both sockets as small state
  machines over database calls, the decoding and encoding of stored rows,
  the plugin supervisor's start plans and restart limit, tombstone
  collection, the status-line cache, the dashboard's state, keys, modals
  and layout arithmetic, paths, tmux name rules and output parsing, and the
  framing of messages.
- `app/` — the program around it: command-line parsing, the daemon's
  sockets, processes and timers, SQLite access, the terminal, logging.
- `tests/` — tests of the library on concrete values.
