# custom_agent_service

The store of user-registered ACP agents (the `custom_agent` table), with its
decisions verified by Verus.

- `src/` — the verified library: definitions and their checks (`agent`), the
  stored row (`row`), reading rows back and preparing saves (`service`), the
  launch registry (`registry`), the step function that seeds the bundled
  `sahaa` agent (`seed`), and the properties that span them (`laws`).
- `app/` — the SeaORM queries, JSON encoding of the launch channels, the
  process-wide registry and logging, which call the library for every decision.
- `tests/` — the library's tests, including the store's scenarios replayed
  against an in-memory table.

The id rule accepts `sahaa`: the bundled agent is stored as a custom agent
under that id by the seeding step, which needs the save checks to pass.
