# krypton

A terminal password manager whose core is verified with Verus.

- `src/` — the verified library: entry models and identifiers, key
  derivation and authenticated encryption (through trusted wrappers around
  `argon2`, `chacha20poly1305`, `rand`, `uuid`, `chrono` and `serde_json`),
  vault creation and unlocking, listing and search-query rules, the password
  generator, the settings editor, key bindings, display text, and the
  interface state machine (`App::handle_action` / `App::resume`), whose
  contracts and laws are stated over spec functions.
- `app/` — the program around it: SQLite storage, the vault service, the
  extension registry, clipboard access, configuration files, the crossterm
  event loop and ratatui drawing. It performs the effects and answers the
  queries that the state machine returns.
- `tests/` — tests of the library on concrete values.
