# llmaap

An autonomous agent that talks to an OpenAI-compatible chat-completions
endpoint, keeps a bounded context of recent turns, and lets the model run
shell commands, message its admin, and keep a long-term memory.

- `src/` is the verified library (Verus): configuration overrides
  (`config`), chat messages and request assembly (`llm`), the context ring
  buffer (`ring`), the agent's state and save file (`data`), the tools and
  their JSON replies (`tools`), text primitives (`text`), and the
  conversation loop as a state machine (`agent`).
- `app/` is the program around it: argument parsing, files, HTTP, the shell,
  the admin's socket and the clock. It performs the actions that
  `agent::Session` asks for and reports their outcomes back.
- `tests/` exercises the library on concrete values.
