# teale_node

A TealeNet supply-node agent, split into a verified library and a thin
program around it.

`src/` is the library, verified with Verus:

- `text` — character-sequence helpers: search, trimming, line splitting,
  decimal formatting.
- `encoding` — hex and standard base64 (through the `hex` and `base64`
  crates) and the keys of JSON objects (through `serde_json`).
- `identity` — the Ed25519 node identity: node ID, signatures of the node
  ID and of session triples (through `ed25519-dalek`).
- `config` — the configuration, its defaults, and the check that the
  selected backend has its section.
- `hardware` — chip family, GPU backend and tier classification, the
  reading of `/proc/cpuinfo` text, and the hardware report (families and
  backends within the protocol's documented values).
- `cluster`, `relay` — protocol messages: decoding relayed data, telling
  message kinds apart, the session's reactions, the replies to hellos,
  heartbeats and inference events, the payloads a node sends, what is done
  with each WebSocket frame, and the reconnection backoff.
- `inference`, `litert`, `backend` — endpoints and command lines of the
  inference servers, the readiness wait, the Gemma prompt, completion
  chunks, and decoding of server-sent events.

`app/` is the program: argument parsing, file and network I/O, processes,
JSON (de)serialisation, floating-point capability figures, and logging.

`tests/` runs the library on concrete values.
