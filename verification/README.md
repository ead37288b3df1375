# sdk_rust

Client for the Openfeed protocol (Barchart streaming market data), written in Verus.

- `src/` — the verified library: connection settings and session state
  (`client`), the gateway requests and replies as plain values (`openfeed`), the
  splitting of the binary feed into length-prefixed frames (`connection`), and the
  error type (`error`).
- `app/` — the networking around it: blocking (`tungstenite`) and tokio-based
  (`async-tungstenite`) websocket connections, protobuf encoding and decoding with
  `prost`, and the clients that drive the library over them.
- `tests/` — tests of the library on concrete values.
