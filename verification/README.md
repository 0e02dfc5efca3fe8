# spaze

A terminal-first team chat: a WebSocket server that fans posts out to every
connected client, and a TUI client with buffers (room timelines and a help
page), slash commands (`/quit`, `/help`, `/me`, `/clear`) and a sidebar.

The library in `src/` is written in Verus and verified:

- `proto` — identifiers, messages, frames and protocol errors;
- `commands` — the slash-command registry, the input parser and the handlers;
- `client` — the client's state machine (keys, effects, server frames),
  its buffers, and what each screen region shows;
- `server` — how a client frame is answered, what is broadcast, and which
  broadcasts a connection forwards;
- `text` — Unicode-aware word splitting, joining and number rendering.

`app/` is the program around it: the JSON wire format (serde copies of the
protocol types), the tokio/tungstenite event loops of client and server, and
painting the screen with ratatui. `spaze` runs the client; `spaze server`
runs the server.
