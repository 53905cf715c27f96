# Luna

Luna lets coding agents work through the items of a tracker: it polls a GitHub
project or a local tracker, puts agents to work in workspaces of their own, watches
over them, and tries again what failed.

The library under `src/` holds what is decided on the way, and Verus proves it
against the contracts that stand beside it. What reads, writes, waits and speaks with
the outside is ordinary Rust under `app/`.

## Layout

| Module | What it holds |
|--------|---------------|
| `orchestrator` | what is dispatched, retried, stopped and released; the laws of a whole run stand in `laws` and `run` |
| `agent` | attempts at issues, the worker that speaks with an agent, the reports of a turn, command lines |
| `tracker` | the requests to the trackers and what their answers mean, and how an issue is located |
| `workspace` | where an issue is worked on, and the hooks around it |
| `job` | one-off jobs |
| `init` | how a repository is set up: the dialog, the files and their texts |
| `wiki`, `domain`, `api`, `desktop`, `cli` | wikis, projects, notifications, the window, the command line |
| `text`, `path`, `table`, `time`, `model`, `config`, `error` | what the rest is made of |

## Workspaces

Each issue has a directory of its own right below the workspace root. Beside it stands
a file of the same name with `#issue` behind it, which holds the issue's identifier. A
directory that is kept for one issue is neither given to another nor removed for it,
and a name that would lead to the root or out of it is refused.

## What is trusted

A few functions of the standard library and of outside crates are called behind
contracts that are believed: changing case, decoding bytes, quoting text and parsing
numbers (`text`), dates and the clock (`time`), URLs (`tracker::asahi`) and JSON
(`tracker::github_project`). Each says in its comment what it claims.
