# frand_node

Message passing over a hierarchical state, with its addressing and scheduling rules
verified by Verus.

A state tree is addressed by keys. A key's *consist* names the node (an id, and how many
collection levels lie above it); its *transient* records the index chosen at each of those
levels. Messages travel down the tree by the distance between ids and up the tree by the
indices their keys record.

## Layout

- `src/` — the verified library.
  - `packet` — ids, depths, consists, transients, keys, payloads, packets, and the message
    packets that travel to a component.
  - `message` — the `Message` trait: what a message does to its state, as a specification
    and as code.
  - `terminal` — primitive states, their CBOR payloads (written and read by `ciborium`; the
    bytes written are stated: integer heads, big-integer tags, UTF-8 text, simple values), and
    reading and writing their packets.
  - `vec` — vector states: how their messages apply, how packets below a vector are routed,
    where a vector's children sit, and how their messages become the vector's.
  - `proxy` — proxy states and the packets they accept.
  - `callback`, `node` — where a node's messages are addressed, which sink they take, and
    how a child's packets are passed on to its parent as the parent's.
  - `consensus` — a component's root state and root nodes.
  - `component` — the scheduler of a component: each key is applied at most once per
    cascade, computed messages are parked one per key until the next round, and futures
    are handed back to be awaited and fed in as input.
  - `lookup`, `result` — reading a node's state, and the packet error.
- `tests/` — tests of the library on concrete values.
- `app/` — the runtime around the library: sinks made of closures and channels (a carried
  or pending message that the library passes on is wrapped when it is computed), the
  component loop on `tokio` channels and `futures`, serde payloads of composite states, and
  reading and writing packets of vectors and proxies.
