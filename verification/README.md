# maps_backend

The back end of a trip-tracking app: rooms whose members share live
positions, trips, waypoints and fuel records; gas stations around a point;
place search; a feed of posts and video reels; and Rust practice material
written by a language model.

- `src/` is the library, verified with Verus: request checks, the records the
  API answers with, the SQL migration splitter, the gas station sync tiles,
  settings, identifiers, image compression around the `image` crate, and the
  laws that tie these together.
- `app/` is the server around it: axum routes, the database through sea-orm,
  Redis, HTTP calls to the outside services, files on disk, and the
  floating-point work on coordinates.
- `tests/` runs the library on concrete values.

Settings come from the environment (`DATABASE_URL`, `REDIS_URL`,
`JWT_SECRET`, `PORT`, `UPLOAD_DIR`, the API keys, `GEMINI_MODEL`, and
`KILO_MODEL`, the Kilo.ai model used when a request names none). Migrations
are read from `MIGRATIONS_DIR` (default `./migrations`); a failed migration
stops the start-up.
