# youyou-agent

A single-session agent kernel, verified with [Verus](https://github.com/verus-lang/verus).

- There is one slot for an active session. Opening, resuming, closing and
  shutting down are explicit steps of a control state.
- The ledger is the source of truth: what a session shows its model while it runs
  is what a restart reads back from the ledger.
- Prompts, tools, hooks, compaction and memories are separate layers, and every
  provider, tool, plugin and storage is an adapter of the host.

## How it works

Nothing in `src/` performs input or output. A turn, an opening, a closing, a
plugin start and a memory extraction are state machines: the host asks what to do
next (`next`), does it, and reports what came of it (`saved`, `hook_answered`,
`read`, `tool_ended`, ...). Each step has an exact contract over a model of the
state, and the laws that span several steps are stated as public proof functions
named `law_...`.

`app/` is such a host on tokio. It holds the adapter traits, the types with their
JSON form, and the loops that carry out what the kernel asks for.

## Layout

- `src/domain`: configuration, errors, events, hooks, the ledger and messages
- `src/ports`: values exchanged with providers, tools, plugins and storages
- `src/prompt`: prompt texts
- `src/application`: rules and state machines
  - `turn_rules`, `turn_state`, `turn_engine`, `turn_laws`: a turn from its first
    hook to its last event
  - `stream`: answers of models, event by event
  - `tool_dispatcher`, `tool_batch`, `tool_output`: tool calls and their results
  - `context_manager`, `context_laws`: what a model sees, and its compaction
  - `session_control`, `session_runtime`, `session_service`, `session_closing`:
    the life of a session
  - `replay_laws`: a running session equals its restart
  - `memory_manager`, `memory_extraction`: memories
  - `hook_registry`, `plugin_manager`, `skill_manager`, `prompt_builder`,
    `request_builder`
- `src/api`: the builder, the agent and session handles
- `src/text.rs`, `src/registry.rs`, `src/json.rs`, `src/clock.rs`: texts, ordered
  registries, JSON values, time and identifiers; all calls into other crates are
  here
- `tests/`: whole agents against scripted adapters, and single parts on concrete
  values
- `app/`: the host on tokio
