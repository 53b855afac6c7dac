# tokimo-im

A verified core for a unified enterprise IM client over DingTalk (钉钉), WeCom
(企业微信) and Lark / Feishu (飞书).

- `src/` is the library, verified with Verus. For every operation of every platform
  it builds the HTTP request (method, URL, headers, JSON or multipart body) and
  reads the reply (status, envelope codes, the platform's records) into the shared
  data model of `src/model.rs`. Contracts state the exact request and the exact
  reading; laws state what holds across operations (stored tokens are the tokens
  sent, codes that round-trip, rows split into creations and updates, times that
  read back as written).
- `src/json.rs`, `src/text.rs`, `src/time.rs`, `src/crypto.rs` and `src/http.rs` hold
  the JSON model, decimal and string helpers, the calls into chrono, hmac/sha2,
  base64, url and serde_json, and the request type.
- `app/` sends the requests with reqwest on tokio, parses replies with serde, and
  hands them back to the library.
- `tests/` exercises the library on concrete values.
