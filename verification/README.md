# hospital

A small imageboard: boards, threads, posts with images, users, sessions,
themes and per-user css.

- `src/` is the library, verified with Verus. `model.rs` states the forum's
  database as mathematics (`DbV`, one `TableV` per table) together with what
  each operation does to it; `db.rs` implements the database in memory
  against those statements. `pages/` renders the pages, `actions.rs` decides
  what each form does, `page.rs` is the frame every page shares, and
  `laws.rs` and `request_laws.rs` prove what the operations promise
  together. Calls into `argon2`, `regex`, `image` and `rand` stand behind
  small trusted wrappers whose contracts say what is believed of them.
- `app/` is the program around it: configuration, the SQLite file the
  tables are kept in, the web server, and the command line tools.
- `tests/` exercises the library.
