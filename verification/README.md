# secure_artifact_manager

An artifact store: an HTTP service that takes uploads into an object store,
records their metadata (size, SHA-256 digest, upload time, scan status) in a
database, serves downloads, listings and scans; and a command-line client.

- `src/` is the verified library (Verus): the metadata record, lower-case hex
  digests, the upload and download endpoints as state machines that decide
  every object-store and database step and every reply, the listing and scan
  replies, and the client's URLs, response judgement and listing rows.
- `app/` is the program around it: `serve` runs the HTTP service (actix-web,
  sqlx/PostgreSQL, S3), any other invocation is the `sam` client (clap,
  reqwest).
- `tests/` exercises the library.
