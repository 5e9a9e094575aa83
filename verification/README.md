# miniblink

Bindings to the miniblink web view engine, split in two crates.

- `src/` is the library, verified with Verus: the codes handed to the engine
  (keys, mouse flags, window messages, navigation, request and resource
  types), the C records of proxy settings, the wide strings of paths and
  header fields, the type checks, reading plans and cursors of the serde
  bridge that reads JavaScript values into Rust values, the narrowing of
  integers written to the engine, the error messages, and the replies that
  callbacks give back to the engine. Each public function states its result in its
  contract; the `lemma_*` proof functions state the properties that hold
  across calls (codes read back, C buffers read back, walks over arrays,
  objects and string lists).
- `app/` loads the engine, creates web views and registers their callbacks.
  It makes the calls into the C library and hands the library plain values.
  Its serde bridge reads numbers, booleans, strings, options, unit values and
  enum names; the engine interface it is built on offers no access to the
  elements of arrays or the keys of objects, so those are refused.
- `tests/` runs the library on concrete values.
