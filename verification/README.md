# vigil_server

The verified core of VIGIL, a control room where teams follow production
releases and the incidents that block them.

- `src/` is the library, checked by Verus. It holds the domain models (teams and
  their roles, incidents and their timelines, releases and their steps, rules),
  the state machines that move them, the permission each role has, the decision
  each operation takes on the data it loaded, the rule engine (filters on dotted
  paths, `{{path}}` templates, reaction planning), GitHub webhook signatures,
  AES-GCM sealing of stored secrets, password hashing, the OAuth round trip, and
  the rooms of the live channel.
- `tests/` runs the library on concrete values.
- `app/` is the server around it: Axum routes, PostgreSQL queries, the WebSocket
  hub's senders, and the calls to GitHub. It reads and writes; the library decides.
