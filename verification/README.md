# warden_worker

A Bitwarden-compatible password-vault server for Cloudflare Workers, with its request
logic verified in Verus.

- `src/` is the verified library: account and registration checks, password hashing and
  verification (PBKDF2-HMAC-SHA256 and Base64 through their crates), settings read from the
  environment, the attachment limits and signed links, cipher responses, the Vaultwarden
  import planner, batching of database statements, and the text and number helpers these
  rest on. Each public function states its result in its contract; the `lemma_*` proof
  functions state the properties that span several functions.
- `tests/` runs the library on concrete values.
- `app/` is the Worker around it: routing, the D1 database, R2/KV storage, WebCrypto and
  the clock. It hands plain values to the library and answers with what it decides.
