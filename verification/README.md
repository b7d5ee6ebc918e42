# soundcloud

A client for the SoundCloud HTTP API whose decisions are verified with Verus.

- `src/` is the verified library. For every API call, `Client` computes the
  exact request it sends: method, URL with its query (the client id appended
  where the API wants it), `Authorization` header, and body (JSON track lists
  for playlist edits, the multipart form of an upload). It also holds the
  rules that act on answers: reading a listing page by page (`PageCursor`),
  the query of the next page (`Page::next_query`), the kind of a resolved
  resource, and what a 404 means for `follows_user`.
  URLs are parsed and extended by the `url` crate and header values checked by
  `reqwest`, behind the small trusted wrappers of `src/urls.rs`.
- `app/` sends the requests with `reqwest`, decodes JSON with `serde`, and
  streams bodies; its `Client` has the async API.
- `tests/` runs the library on concrete inputs.
