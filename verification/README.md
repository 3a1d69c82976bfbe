# rsil

The verified core of the `sil` wire protocol and of the node's RPC helpers, written in Verus.

- `src/` is the library. Every function in it carries a contract that Verus proves: protocol
  versions and capabilities (with their RLP forms), the `sil` and `sil` + `snap/2` streams,
  the status handshake, the pending block that the RPC layer builds, the `sil_subscribe` and
  `rsil_*` decisions, and the payload attributes of locally mined blocks. The few calls into
  `alloy_rlp`, `alloy_primitives` and std that Verus cannot read stand behind small functions
  in `src/rlp.rs`, `src/random.rs`, `src/text.rs` and `src/balance_map.rs` (the `AddressMap` of
  changed balances), each with the contract it is believed to meet.
- `tests/` runs the library on concrete values.
- `app/` holds the JSON forms of the RPC types, which need serde derives.

What is not here: the loops that drive these decisions (polling the `sil` streams, walking the
transaction pool while executing transactions, piping subscription items to their sinks, and the
task that feeds the finalized-notification buffer). They await the transport, the execution
engine and the node's storage and pool, none of which is part of this crate, so the library
offers each step of those loops as a verified function, states over whole runs what the steps
add up to (for the pool walk and for the notification buffer), and leaves the loops to the node
that embeds it.
