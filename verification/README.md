# ai_api

The verified core of an HTTP API for AI conversation flows and of its
studio, where projects are drafted and published.

- `src/` is the library, written in Verus: configuration parsing, the
  companies registry, the studio's drafts and their conversions to the
  published flow, knowledge and prompt files, the publish pipeline as a state
  machine, background evaluation runs, the loaded flows, and the decisions of
  each HTTP handler. Every function carries a contract that Verus proves.
- `tests/` exercises the library on concrete values.
- `app/` is the server around it: environment, files, the conversation
  runtime, serde and axum.
