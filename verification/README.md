# dyncord

The core of a Discord bot framework, with its behaviour stated in Verus
contracts and proved.

- `src/` — the verified library:
  - `commands/slash/` — slash-command argument builders, their metadata, the
    command option fields that register them, argument parsing decisions, and
    per-language texts (`Localizations`).
  - `builtin/cache/inmemory.rs` — the in-memory cache over `papaya` maps, with
    its well-formedness invariant and read-after-write laws.
  - `handle.rs` — the cache-first lookup steps of a bot handle and the parsing
    of reaction emojis.
  - `wrappers/` — users, members, servers, channels, roles, and the message
    and interaction response builders.
  - `state.rs` — the bound on a bot's state type.
- `app/` — the asynchronous side: the Discord HTTP client, the cache backend
  trait, argument parsing entry points, float bounds, and conversions from
  twilight's types.
- `tests/` — tests of the library on concrete values.
