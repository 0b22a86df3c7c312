# koshi_visual

Visual-mode highlights of a terminal multiplexer, written and verified in Verus.

- `src/command.rs`, `src/ids.rs`: the highlight commands and what they name.
- `src/text_view.rs`: a pane's text as a highlight reads it.
- `src/snap.rs`, `src/snap_laws.rs`: how a pointer drag becomes a stored highlight, and what holds of every one.
- `src/client.rs`, `src/server.rs`: attached clients, sessions, and what waits to be sent out.
- `src/visual.rs`, `src/visual_laws.rs`: the command handlers, and what holds across commands, clients and panes.
- `src/outcome.rs`: events, refusals and command answers.
- `src/span.rs`, `src/host.rs`: cell spans, and which reported hosts mean this machine.
- `app/`: runs highlight commands against live terminals.
