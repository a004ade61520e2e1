# shitty_vt

The embedder side of shitty's embeddable VT core, with its encodings and
bookkeeping proved in Verus.

- `src/` — the verified library: the facade's ABI constants and records
  (`sys`), cell and colour decoding (`cell`), cursor, modes and memory
  (`state`), keys, modifiers and key events (`input`), callback state
  (`events`), reply draining (`replies`) and the wrapper's argument rules
  (`terminal`).
- `app/` — the `Terminal` wrapper around the C facade: the `extern "C"`
  declarations, the callbacks, and one call per method. It links against
  `libshitty_vt` and takes every decision from the library.
- `tests/` — the library's tests.
