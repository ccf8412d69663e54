# aibot-rust-sdk

SDK for WeCom (企业微信) AI bots over the WebSocket long-connection channel.

- `src/` is the verified library: the protocol's data types; the connection
  state machine (authentication, heartbeats, reconnection with exponential
  backoff capped at 30 s); the per-request serial reply queues; reply and
  message bodies; the plan of chunked media uploads (512 KiB chunks, at most
  100); parsing of `Content-Disposition` file names; AES-256-CBC file
  decryption with PKCS#7 unpadding; request ids and log lines. Each function
  carries a contract, and the library's laws (queue order, backoff bounds,
  heartbeat liveness, chunk partition, decryption of padded plaintext, ...)
  are proof functions next to the code they speak of.
- `app/` is the asynchronous client around it: the WebSocket I/O loop
  (tokio, tokio-tungstenite), HTTP downloads (reqwest), JSON conversion
  (serde_json) and the event callbacks (`WSClient`, `WsConnectionManager`,
  `WeComApiClient`).
- `tests/` exercises the library on concrete values.
