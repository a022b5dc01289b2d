# spectre

Verified logic of the Spectre wallet and node tooling, written in Verus.

- `src/psst.rs`: partially signed Spectre transactions (PSST) and the role
  machine (creator, constructor, updater, signer, combiner, finalizer,
  extractor) with the payload edits each role allows; `src/psst_laws.rs`
  states and proves its laws.
- `src/hex_codec.rs`: the specification of hexadecimal decoding and the
  trusted call into the `hex` crate.
- `src/flows.rs`: the peer-to-peer flows registered for a peer and the
  message types routed to each; `src/flows_laws.rs` proves that every message
  type reaches at most one route.
- `src/cli.rs`: decisions of the `connect` and `send` commands.
- `src/config_error.rs`, `src/text.rs`: configuration errors and their texts.
- `src/units.rs`: networks and their currency tickers.
- `app/`: JSON forms (serde), the JavaScript PSST handle (wasm-bindgen),
  floating-point amount rendering (separator) and the `thiserror` form of the
  configuration error.
