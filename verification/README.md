# rocket_guide

The request-handling logic of three small Rocket web applications, verified
with Verus:

- a greeting server (`src/hello.rs`);
- a user directory with a visitor counter (`src/state.rs`, with the
  `<name>_<grade>` path segment parser in `src/name_grade.rs`);
- a database-backed site with user pages and post uploads
  (`src/user_routes.rs`, `src/post_routes.rs`, `src/guards.rs`).

`src/text.rs` holds the string building blocks (decimal rendering, substring
search, `Debug` quoting) and `src/http.rs` the statuses the handlers answer with.

`src/jpeg.rs` turns an uploaded image into the JPEG asset of a photo post.

`app/` is the unverified server: Rocket routes, the database queries, reading
and writing files, and templates, calling the library for every decision and
computation, including the kind of an uploaded file's media type. It starts
the directory server by default, or the one named by its first argument
(`hello`, `state`, `modular`).

The user directory is a `Vec` of key/user pairs whose keys are kept pairwise
distinct, rather than a `HashMap` keyed by strings. vstd's `HashMap` is
specified only for key types known to follow its key model (integers,
`bool` and boxes of them); its `StringHashMap` does specify `get` and
`insert` for `String` keys, but offers no way to go through the values, which
the user query needs. Kept in insertion order, the directory also fixes the
order in which a query lists its users.

Each database-backed handler that alternates outside work with decisions is a
step function in the library: from the stage of the request and what the last
piece of outside work reported, it gives the next stage and the next action
(acquire a connection, look a record up, keep, read, write or copy a file,
record a post, or answer). `app/` performs the actions and reports back, and stops at
the answer.
