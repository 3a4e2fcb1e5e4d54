# claw_core

The core of an agent runtime for small devices, written in Verus: agents that talk to a
model, call tools and delegate to subagents; the orchestrator that runs them in
sessions; the request loop of a single agent; and what crosses the boundary to C.

- `src/` holds what the runtime decides, with contracts that Verus proves.
  - `agent/` the base agent, the agents built on it, and the graph of agents
  - `agents/`, `agent_spec`, `agent_registry`, `context`, `llm_output` controllers and
    the context that they work in
  - `agent_loop`, `core_state`, `channel`, `request`, `events`, `callbacks` the request loop
  - `iteration_loop`, `tools`, `llm/` one round with a model, and how models are asked
  - `orchestrator`, `orchestrator_instance`, `session`, `protocol/` sessions and messages
  - `memory`, `observability` scoped memory and traces
  - `capi/`, `errmap`, `errname` strings, records and codes as C callers see them
  - `json`, `document`, `text` values, documents that are read field by field, and texts
- `app/` performs what the library asks for: threads and waits, HTTP, files, C pointers.
- `tests/` runs the library.

Outside calls in `src/` are made by few functions, each with a contract that is taken as
given: checking, parsing, printing and reading JSON (`serde_json`), encoding images
(`base64`), and decoding and quoting text (`std`). Public functions named `law_*` state
what holds across several operations.
