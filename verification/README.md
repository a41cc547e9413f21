# rust_zmq_chat

A ZeroMQ publish/subscribe toolkit: a PUB server window, a SUB client window,
a three-peer chat over IPC or TCP, an IPC binder, and a splash screen driven
by progress signals.

- `src/` is the verified library: message framing and rendering
  (`network`), the publisher and subscriber worker state machines (`worker`),
  the state of the server and client windows (`server_app`, `client_app`),
  bounded histories (`history`), panel lines and labels (`view`), the chat mesh
  and peer decisions (`chat`), the splash screen (`splash`), the launcher
  (`launcher`), text helpers (`text`), and the calls into the clock, the random
  source and std's text conversions (`sys`).
- `app/` holds the desktop program: egui windows, ZeroMQ sockets, threads and
  channels, and the JSON forms of chat messages and splash signals. Its first
  argument picks the window: `server`, `client`, `tester`, `controller`,
  `chat`, `binder`, `splash [program]` or `splash-tester`.
- `tests/` exercises the library on concrete values.
