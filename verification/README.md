# nia

A client library for Navidrome / Subsonic music servers, verified with
Verus, together with the decisions of the `nia` desktop player and of its
command line launcher.

- `src/` is the verified library: the server's records (`models`), login
  requests and credentials (`auth`), the addresses of Subsonic requests
  (`subsonic`, `browsing`, `lists`, `stream`), JSON string literals (`json`),
  the launcher's decisions (`cli`), and the player's shared state and screens
  (`app_state`, `screens`).
- `app/` is the launcher program: command line parsing, HTTP, the keyring,
  JSON parsing into the library's records, and starting the player process.
- `tests/` exercise the library on concrete values.
