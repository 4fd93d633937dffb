# zenoh_nostd (verified core)

The decision logic of a small-footprint zenoh session, verified with Verus:

- `keyexpr`: key-expression validation and intersection (through
  `zenoh-keyexpr`), chunk splitting, and inclusion under zenoh's matching
  rules (`*`, `**`, the in-chunk wildcard `$*`, verbatim `@` chunks), with
  proofs that inclusion is sound against an independent definition of which
  keys a key expression matches, exact on keys, reflexive, and that `**`
  covers exactly what has no verbatim chunk.
- `intern`: a cache that holds each key expression once.
- `slots`: the table of open sessions (at most four): an open reserves its
  slot under a new generation, so opens in flight never share a slot and a
  closed handle never reaches a later session.
- `establishment`: the reaction to an `InitSyn`, including the simultaneous-open
  rule (the lower identifier keeps the initiator role).
- `channel`: the receiving end of an `embassy-sync` channel, and what a
  channel delivery sends.
- `session`: callback registries with counters, and the id allocator, whose
  ids are fresh until the count wraps.
- `put`, `publisher`, `subscriber`, `get`, `queryable`: builders, the messages
  they produce, local delivery (none for a publication whose send failed), and
  reply routing; `lifecycle` proves how finalizations end a request.
- `mesh`: the peers of a mesh, by identifier, whom a message is forwarded to,
  and the stop at the first failed send.
- `ws`: WebSocket link information and frame delivery into a buffer.
- `ts`: the script-facing layer: option mappings, handle checks, answer shapes,
  and the bounded wait for a get's end.

`app/` holds glue around the library, not a complete script binding: the
key-expression utilities and the script-side error, the channel waits with
their deadline, the session open around a connection, publishing and issuing
a get around a send, the 5 ms wait for a get's end, finalizing a query once,
and the mesh glue around `embassy-sync` mutexes. It has no `wasm_bindgen`
exports, session run loop or WebSocket link.

Key-expression validation and intersection come from `zenoh-keyexpr`,
eclipse-zenoh's own key-expression crate. The code this library grew from
took them from the `keyexpr` module of its `zenoh_proto` crate, which is not
published and so cannot be depended on here. `zenoh-keyexpr` is
eclipse-zenoh's upstream key-expression crate, the nearest published source
of the same rules; whether `zenoh_proto`'s copy differs from it cannot be
checked from here.
