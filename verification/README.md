# proxy_response

Rules of a local API proxy that sits between coding assistants and model providers, written in
Rust and verified with Verus: what becomes of an upstream response on its way to the client, and
how the configuration file of OpenCode is read and changed.

## Layout

- `src/`: the verified library.
  - `message`, `json`, `text`: models of HTTP messages, JSON documents and text, and the calls
    into `http`, `axum`, `bytes`, `reqwest` and `serde_json` that the rules rest on.
  - `headers`: which header fields reach the client.
  - `encoding`: decoding of compressed bodies.
  - `response`, `codex`, `upstream`: the answers, from buffered and from streamed responses.
  - `stream`, `completion`: time limits, the relay of a stream, and how it ended.
  - `opencode_config`, `error`: the configuration file, and the failures.
- `app/`: ordinary Rust that runs the rules on the network, the clock and the file system.
- `tests/`: tests of the library with the outside crates linked.

The contracts of calls into outside crates are trusted, not proved. Each stands above the call it
speaks of, as a function marked `external_body` or an `assume_specification`.
