# roomcast

The verified core of a room-based image and comment board. Users get an identifier and a
signed bearer token; in a room they post images and comments, vote on images, and the
room's master deletes comments, bans users and deletes the room. Events are pushed to the
room's clients over web sockets.

- `src/` is the library, verified with Verus: identifiers and their text forms (`ids`),
  hashing, HMAC and base64 behind trusted wrappers (`crypto`), tokens (`token`), storage
  keys (`keys`), the guard runner (`guards`), what each handler checks, writes and
  announces (`engine`), decisions on stored records (`repository`) and the registry of
  web-socket clients (`ws`).
- `app/` is the server around it: routes (axum), the database (sea-orm), Redis (bb8),
  presigned uploads (aws-sdk-s3), web sockets and the schema migrations.
- `tests/` exercises the library on concrete values.
