# zotero_rs

A client for the Zotero Web API v3 whose request-building, response-reading,
OAuth-signing and retry logic is verified with Verus.

- `src/` is the verified library. Every public function states what it
  returns in its `ensures`; laws that span functions are public proof
  functions (`lemma_*`). Calls into outside crates (`url`, `http`, `hmac`,
  `sha1`, `base64`, `rand`) and a few std functions sit behind small trusted
  wrappers whose doc comments say what is assumed of them.
- `app/` is the HTTP side: the `reqwest` client, authentication with
  `secrecy`, JSON with `serde`/`serde_json`, and the async operations. It
  sends the requests that `src/` plans, reads the answers with `src/`, and
  waits and retries as `src/` decides.
- `tests/` runs the library on concrete values.

Modules of `src/`: `endpoints` (method, path, query and headers of each
operation), `requests` (query and precondition headers), `headers` and
`responses` (reading response headers and pagination), `retry` (what follows
each attempt, backoff), `oauth` and `sort` (OAuth 1.0a signing and reading
token answers), `encoding` (percent-encoding), `urls` (base URL, next-page
and upload target checks), `file_upload`, `items` (item metadata from JSON),
`auth` (the credentials header), `error`, `config`, `scope`, `time`, `text` and `types`.
