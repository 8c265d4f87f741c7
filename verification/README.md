# evgl-cli

The verified core of the Evento Globolo operator CLI.

- `src/` is the library, verified with Verus: the environment snapshot
  (`env_map`), argument handling and command dispatch (`cli`), API settings,
  URLs and response decoding (`api`), request planning for each command
  (`requests`), error messages (`error`), string and number helpers (`text`,
  `decimal`), and the contracts believed of the outside crates that it calls
  (`outside`: `serde_json`, `url`, `uuid`).
- `app/main.rs` is the program around it: it reads the arguments and the
  process environment, runs the flags-2-env parser, and performs the HTTP and
  WebSocket I/O with `reqwest` and `tokio-tungstenite`.
