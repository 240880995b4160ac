# lightning-liquidity

The message manager of a Lightning node that buys liquidity from other nodes, or sells it to
them, over the LSPS protocols. It routes messages between peers and the handlers of the
protocols, keeps what waits to be sent and to be shown to the user, remembers the method of
every request that was sent, announces the node's feature bit, and follows the tip of the
chain.

- `src/` is the manager, verified with Verus. `manager.rs` holds it, `laws.rs` what is proved
  of it as a whole; `protocols.rs` says what it needs from the protocols that it runs.
- `app/` puts the manager behind a lock and plugs it into the peer handler and the chain
  notifications of a node.
- `tests/` runs the manager, with the crates that it calls.
