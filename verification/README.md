# chatgpt_codex_bridge

A desktop middleware that lets a ChatGPT conversation plan work and a local
Codex agent carry it out. This crate is its verified core, written in Verus.

- `src/` — the library, every function proved against its contract:
  - `orchestration` — the planning / Codex / review state machine and its laws;
  - `middleware`, `protocol` — module records, budgets, the JSON protocol envelope,
    and the messages handed to ChatGPT and Codex;
  - `relay_protocol`, `relay_codex_input` — the terminal control blocks of a relay
    reply and Codex's requests for user input;
  - `relay`, `relay_module`, `relay_cycle`, `relay_queue`, `relay_channel` — relay
    modules, their Codex cycles, the global FIFO to ChatGPT with its uncertain
    deliveries, and what each channel is doing;
  - `app_server`, `relay_worker`, `git_check`, `bridge` — the decisions of the Codex
    app-server turn, the module's Codex worker, the commit check and the browser
    bridge, as state machines driven from outside;
  - `stamps`, `text` — ids, clocks and string helpers.
- `tests/` — tests of the library run against the compiled crate.
- `app/` — the unverified shell: SQLite storage, the Codex process, the
  WebSocket bridge and the event loop that feeds the library's state machines.
