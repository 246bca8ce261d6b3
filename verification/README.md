# agent-workspace-linux

Hidden X11 workspaces for agents: a per-workspace daemon owns an Xvfb display, a
window manager and the apps launched into it, and answers requests over a Unix
socket; a command line and an MCP server drive it. Saved profiles describe a
workspace (size, mounts, network, environment, setup commands and startup apps),
and an optional MCP permission ceiling narrows what profiles and launches may ask
for.

## Layout

- `src/` is the library, verified with Verus. Every public function states in its
  `ensures` what it returns, and the properties that relate several functions are
  proved as `law_*` proof functions next to them.
  - `text`, `paths`: string and path helpers with their mathematical models.
  - `policy`, `permissions`, `profile`: policies, the permission ceiling, profiles
    and the profile store.
  - `checks`, `doctor`: validation of ids, coordinates, launches and starts, and
    the readiness report.
  - `requests`, `responses`, `cli`: the IPC requests a command builds, what a
    reply means to the caller, and the parsing of command-line arguments.
  - `sandbox`, `launch`, `apps`, `windows`, `daemon`, `listing`: the daemon's
    decisions — bubblewrap arguments, launch plans, app and window matching,
    parsing of tool output, waiting, killing, the event log and the workspace list.
  - `guardrails`: the guardrail summary.
- `app/` is the program around the library: argument handling, the daemon's
  socket loop and child processes, X11 tools, the profile store on disk, JSON
  (de)serialisation through copies of the library's types, and the MCP server.
- `tests/` runs the library on concrete values.
