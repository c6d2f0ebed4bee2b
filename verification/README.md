# pendrake

The logic of a watch-only Zcash wallet, verified with Verus: what the daemon decides about
wallets, sessions, sync rounds, notifications and prices, and what the GUI's client decides
about the daemon.

- `src/` is the library. Nothing in it touches a file, a socket or a clock: each operation
  that needs one is split where it happens, and takes what came of it.
- `app/` is ordinary Rust around the library: files, sockets, the wallet engine, the JSON on
  the wire, and the GUI backend.
- `tests/` runs the library on concrete values.

| Module | What it is about |
| --- | --- |
| `ipc`, `json`, `gate` | the protocol's types, JSON values, and which requests are answered |
| `paths`, `transport`, `run` | where things are on disk, where client and daemon meet, how the service starts |
| `service`, `import` | the wallet service: its state, the import of a key, a change of server |
| `chain`, `uri` | does the Indexer serve the chain that the wallet synced? |
| `round`, `sync`, `clock` | one round folded from the scanner's events, and the loop around it |
| `tx`, `notes`, `amount`, `hex`, `text` | transactions, notes and amounts as they are shown |
| `notify`, `price` | which transactions are notified, and when prices are fetched |
| `client` | the GUI's side |

Trusted are the wrappers around `serde_json`, `http` and `zcash_protocol`, and a few functions
of the standard library; each says in its doc comment what it claims.
