# tower_cache

A cache for the responses of HTTP services, verified with Verus.

A `CacheService` stands before an inner service. The first request for a key (method and URI) is
answered by the inner service; the body of the response is copied to an entry of the cache while it
is streamed to the client. Once it has come to its end, requests for the same key are answered from
the entry, until the key is invalidated. Predicates on requests and on responses say which responses
are cached.

- `src/` is the cache as a state machine. Each function takes one step on the state that is passed to
  it and says what is to be done next. `laws.rs` states what holds of the cache as a whole.
- `tests/` runs it.
- `app/` is the cache as a `tower` layer and service: it locks, polls, waits and wakes.

What is taken for granted about `http`, `bytes`, `dashmap`, `segvec` and `Arc` stands beside the
functions that call them, in `key.rs`, `trailers.rs`, `buffer.rs`, `dash.rs`, `valids.rs` and
`options.rs`.
