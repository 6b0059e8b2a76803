# relay

The verified core of Relay, a terminal AI agent that talks to an
OpenAI-compatible chat API and runs tools (shell, file reading and writing,
glob, grep, skills) on the local machine.

`src/` is the library, written in Verus: every function carries a contract
that Verus proves. It holds the logic of the agent:

- `message` — the conversation, its token estimate, pruning to the context
  window and compression of old tool history;
- `turn` — one turn as a state machine (`TurnDriver`): what the session and
  the user get at each event of a streamed reply, which tool calls run, wait
  for approval or are blocked, and when the turn ends;
- `reflect` — the anti-stuck counters and the messages they inject;
- `mode` — Auto, Confirm and Plan modes;
- `tools` — tool definitions, validation of calls, and what the tools compute
  (binary detection, truncation, matching, reports);
- `client` — the server-sent event protocol and the errors of HTTP statuses;
- `config`, `env`, `memory`, `skill` — settings, the system prompt, memory
  files and skills;
- `term`, `tui`, `ui` — the slash commands, the state of the chat view and
  text helpers;
- `text` — specified string operations the rest is built on.

Public proof functions named `law_*` state properties of the library as a
whole, such as that pruning leaves a conversation that fits its budget.

`app/` is the program around the library: argument handling, the terminal
loop, HTTP streaming, running tools and reading files. `tests/` exercise the
library.
