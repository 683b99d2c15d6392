# heartbeat

A subscription heartbeat service: a server that registers users, opens
sign-in sessions and acknowledges heartbeats, and a client whose local
dashboard stays locked until the server acknowledges its heartbeat.

- `src/` is the verified library (Verus): text handling (`text`, `order`),
  bounded histories (`history`), identifiers and case folding (`ids`), the
  clock (`clock`), JSON replies (`json`), password checks (`password`), the
  client's endpoints,
  page and state machine (`endpoints`, `page`, `client`), the server's
  bookkeeping (`server`), its API decisions (`api`) and its storage rows and
  keys (`db`).
- `app/` is the program around it: `heartbeat server` runs the HTTP server
  with its SQLite store, `heartbeat client` runs the local client. It does
  the network, database, clock and file work and hands the outcomes to the
  library.
- `tests/` exercises the library on concrete values.

Passwords are stored as Argon2 hashes in PHC string form: `app/` hashes them
with a random salt, the library checks them.
