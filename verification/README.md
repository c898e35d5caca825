# slipstream

A verified library for a feed reader: entries and their tags, feed
filters and transforms, feed updating, the stored-entry query, the
configuration and its feed lists (plain lists and OPML documents), the
terminal reader's decisions and the served feeds' settings. Every function in
`src/` carries a contract that Verus proves; calls into outside crates sit
behind small trusted wrappers whose contracts are stated in their doc
comments.

- `src/` — the library, one module per concern; `src/laws.rs` holds the
  properties that span several functions.
- `tests/` — tests of the library on concrete values.
- `app/` — the command-line program around the library: argument handling,
  file and network I/O, and the conversions to and from the serialized
  configuration.
