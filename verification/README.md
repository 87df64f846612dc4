# Agent Session Router

The rules of a router for agent sessions: agents join a named workspace, work is handed to
one of them at a time, and a session is bound to one task attempt until its end is confirmed.
Every rule is a verified function; whatever reads, writes, spawns or waits stands around it.

## Layout

| Place | What it holds |
| --- | --- |
| `src/protocol` | the messages, their fields and their validation |
| `src/mcp` | the tools, their results and notifications, and the state behind them |
| `src/providers` | the inbox, the leases and the turns of the providers' processes |
| `src/process` | starting, sharing, stopping and recording the router |
| `src/onboarding` | invitations, routes, the journal, enrollment and the set-up of a host |
| `src/text.rs`, `json.rs`, `net.rs`, `ids.rs`, `paths.rs`, `shell.rs`, `digest.rs` | what the rules are stated over |
| `tests` | the library on concrete values |
| `app` | files, sockets, processes and serialisation |

Where work alternates between deciding and acting, the library holds a machine: a phase says
what is to be done next, `step` takes what became of it, and the program in `app` does
nothing but act and report. A proof function with a doc comment beside such a machine states
what holds of all of its runs.

Functions that call another crate stand behind items marked `external_body`. Each says in its
doc comment what it claims of that crate. A result that takes pages to state has a name
instead, a spec function without a body that stands beside the call.
