# flow_core

The verified core of three small command-line tools built around a local
Ollama model server:

- `fc` — `gui start`, and `image describe` / `image config ...` for
  describing pictures with a vision model;
- `describe-picture` — the older standalone picture describer;
- `summarizer` — sends a text file to a model and appends the reply to an
  output file that must not exist yet.

`src/` is the library, verified with Verus. The tools' decisions are state
machines (`model_selection`, `summarizer`) that take the outcome of each
outside call as an event and return the next action; configuration edits,
request building, report formatting and the clipboard report live there too.
`app/` holds the command-line parsing and performs the actions: model server
calls, files, the terminal picker, and (on Windows) the clipboard.
