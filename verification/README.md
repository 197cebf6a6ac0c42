# bitunix

A client library for the BitUnix futures API, verified with Verus.

`src/` is the verified library:

- `params.rs` — `ParamMap`, a string map kept in the byte order of its keys,
  with the proof that its entries depend only on its contents;
- `text.rs`, `json.rs` — decimal and hex rendering, trimming, searching, and
  compact JSON framing (string literals are quoted by serde_json);
- `crypto.rs` — SHA-256 (sha2), hex digests, random nonces (rand), clock readings (chrono);
- `restful/` — the query string, the full URL (urlencoding), the compact body,
  the double SHA-256 signature and headers of every request, and the calls of
  each endpoint; `models.rs` holds the answers' data types;
- `ws/` — the messages of the public and private streams, and the state
  machines that decide what their reconnecting loops do (backoff, giving up,
  heartbeats, which messages are handed on); `model/` holds the pushed data types.

`app/` holds the I/O around it: the HTTP client (reqwest), the websocket loops
(tokio, tokio-tungstenite), and serde copies of the data types.
