# chat_cli

The logic of a command-line chat agent, written in Verus: each function states what it
does in `requires`/`ensures`, and Verus proves it.

## Layout

- `src/` — the verified library.
  - Names and paths: `tool_names` (tool name references and canonical names), `path_util`
    (expansion and normalization of paths), `paths`, `env_var`, `globs`.
  - Agents and permissions: `agent_config`, `config`, `permissions`, `tools`, `tool_utils`
    (sanitizing the tool specifications sent to the model).
  - Messages and requests: `messages`, `agent_loop`, `compact` (truncation and summary
    prompts), `rts_parser` (the response stream as a state machine), `rts_request` (the
    request the streaming service takes), `stream_error`, `api_client`.
  - The chat session: `launch` (the first question, `--trust-tools` and `--profile` warnings, the model a
    chat starts with), `chat` (input classification, tool approval), `chat_flow` (what follows
    validation, failed responses and errors; compaction retries; the greeting), `session`
    (the session's steps from state and event to next state and conversation actions),
    `task_executor` (hook inputs and outputs), `mcp` (the server registry), `settings`, `cli`,
    `ui_protocol`, `theme`, `text`, `json`, `constants`, `database`.
  - Calls into outside crates (globset, glob, regex, serde_json, shlex, shellexpand,
    crossterm, uuid, rand, bstr) go through small trusted wrappers whose contracts say what
    those crates do.
- `tests/` — tests run against the compiled library.
- `app/` — a thin command-line front end: argument parsing, files, the editor, and the
  context-window bar (floating point).
