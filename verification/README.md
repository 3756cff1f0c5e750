# dirustic

A Discord music bot whose logic is a library verified with Verus.

- `src/` — the verified library: `H:MM:SS` durations, track metadata and
  its rendering, the numbered queue listing and its pages, reading the
  playlist lister's output, and the decision each chat command takes.
- `tests/` — tests of the library on concrete values.
- `app/` — the bot program: it talks to Discord and to the voice service
  and follows the library's decisions.
