# mouse-share

Share one mouse and keyboard between two computers on a local network. The
server captures input; when the cursor reaches the configured edge of its
screen, input is forwarded over UDP to the client, which replays it, until
the cursor comes back across the opposite side of the client screen. Text on
the clipboard is kept in sync over TCP on the next port.

Layout:

- `src/` is the library, verified with Verus:
  - `net/server.rs`: the server's forwarding state machine (`ServerFsm`):
    entering the client, arming and taking the return, the watchdog, and the
    coalescing of moves into one packet per drain cycle; `server_laws.rs`
    proves what holds of it across calls.
  - `net/client.rs`: the client's replay state machine (`ClientFsm`), the
    Hello handshake and the liveness checks; `client_laws.rs` holds its laws.
  - `clipboard.rs`: the length-prefixed framing, hash-based de-duplication,
    the interruptible sleep and the log summaries.
  - `input/`: mapping macOS event-tap and Windows hook callbacks to captured
    events, and the button/key mappings used when replaying them.
  - `config.rs`, `protocol.rs`, `log_buffer.rs`, `net/state.rs`: the screen
    configuration and edge parsing, the wire value types, the UI log channel
    and the state shared with a user interface.
- `app/` is the command-line program: sockets, threads, the system
  clipboard, the platform input APIs, the serde/bincode wire encoding and the
  floating-point screen geometry.
- `tests/` runs the library on concrete values.
