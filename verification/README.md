# mythos_harness

A finish-first agent harness whose decisions are verified with Verus.

- `src/` is the verified library: the phases of the loop (`phase`), the run
  state and its updates (`types`), the loop state machine that decides which
  phase runs next, when a round starts again and when a run stops
  (`run_loop`), how agent and plugin results make up a phase result
  (`outcome`), the harness builder (`builder`), the rules of the built-in
  plugins (`shell`, `filesystem`, `code_executor`, `memory`, `web_search`),
  the run registry of the web interface (`registry`), and the command-line
  helpers (`cli`). `text` holds verified string routines; `paths` and
  `opaque` hold the trusted items that reach the standard library and the
  outside crates.
- `app/` is the program around it: the async engine and agent, the plugins'
  file, process, database and network work, the web server and the CLI.
- `tests/` runs the library on concrete values.
