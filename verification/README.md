# aa-caller

A helper for managing AppArmor profiles, usable from the command line or as a
server on the Unix socket `/tmp/aa-caller/socket`.

The library (`src/`) holds the decisions, each with a contract proved by
Verus:

- `cli`: what the command-line options start (the server, a command-line
  request, or both);
- `caller`, `server`, `common`: the plans for a request (`Handler`,
  `AsyncHandler`), shared by the command line and the server;
- `command`: the programs run for a request (`aa-status`, `ps`,
  `aa-enforce` and friends, `apparmor_parser`), the replies made of their
  output, the logs, and the steps of loading a profile from a file;
- `server`: serving one client (which messages are read, what is answered),
  reading a message and writing the reply;
- `wire`: the two socket messages in the Protocol Buffers wire format, read
  with `prost`'s field-level decoding functions.

The socket messages each hold one enumeration field, number 1:
`Request.call` (`DAEMON = 0, LOGS = 1, STATUS = 2, UNCONFINED = 3,
PROFILE = 4`) and `ProfileReq.op` (`LOAD = 0, STATUS = 1, DISABLE = 2`).

`app/main.rs` is the program: it parses the command line with `clap`, runs
programs, reads and writes files and the socket with `tokio`, and carries out
what the library decides.
