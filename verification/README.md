# k_indexer

The services of the K social protocol indexer on Kaspa, as a verified
library and the programs around it.

- `src/` is the library, verified with Verus: the K protocol parser, the
  hashtag extractor, what each action writes, the schema plan and check,
  the worker and retry decisions, the web server's cursors, clauses, pages
  and responses, the legacy indexer's filters and tallies, and the settings,
  plans and cycles of the content remover and the database cleaner.  Calls
  into `hex`, `base64`, `serde_json`, `regex`, `secp256k1` and std stand in
  `src/codec.rs`, each behind a small trusted function whose contract says
  what is believed of it.
- `app/` holds what runs around the library: command lines, PostgreSQL and
  document-store access, the HTTP-facing handlers, the notification listener
  and worker tasks, and the Kaspa message-signature call.
- `tests/` runs the library on concrete values.
