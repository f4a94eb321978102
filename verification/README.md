# cdp_target

Where a profile's browser is, and how to talk to it over the Chrome DevTools
Protocol.

`src/` is a Verus library: what the client makes of each thing that happens, and
every text it sends or answers with, with contracts and proofs. It opens no
socket and reads no clock. A caller performs the step it is told to take and
reports what came of it. The deadlines and the counts of attempts are kept in
`src/`; the caller reads the clock, times each read as it is told to, and writes
the log.

- `clock`: deadlines, and the time that is left of a wait
- `error`: the errors, and what close codes and HTTP statuses mean
- `json`: what a JSON value holds, and the `serde_json` calls
- `text`: decimal numbers and string comparison
- `target`: targets, requests, handshakes and retries
- `discovery`: from a profile to the socket of a page
- `connection`: frames out, frames in, and the wait for a reply
- `command`: whole commands, with or without the page load they set off
- `laws`, `run_laws`, `discovery_laws`: what holds across calls

`app/` is ordinary async Rust that owns the sockets, the HTTP requests, the
clock and the log.
`tests/` runs the library against a browser that exists in memory only.
