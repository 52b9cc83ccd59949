# remote-log-tui

A terminal viewer for the logs of Kubernetes pods: the pods of a namespace are tabs, and the log of
the selected pod is followed. The library holds the viewer's decisions as verified Verus code; the
program around it talks to the cluster and the terminal.

## Layout

- `src/buffer.rs`: the bounded log buffer and the window scrolled over it; `src/buffer_laws.rs`:
  what holds of them over several operations.
- `src/keys.rs`: keys and their commands.
- `src/layout.rs`: the rows of the screen.
- `src/style.rs`, `src/draw.rs`: what the screen shows, as plain values.
- `src/names.rs`, `src/text.rs`: the order on names, sorting, decimal numbers.
- `src/k8s.rs`: the steps towards a client, the list of pods, and the log reader.
- `src/tui.rs`: the dashboard as a state machine from events to actions; `src/tui_laws.rs`: what
  holds of it; `src/follow_laws.rs`: whose lines it shows.
- `app/`: arguments, the terminal, the Kubernetes client and the event loop.

## Keys

| Key | Action |
|-----|--------|
| `←` / `→` | Previous / next pod tab (restarts the log of that pod) |
| `r` | Reload the list of pods |
| `↑` / `↓` | Scroll the log by a line |
| `PgUp` / `PgDn` | Scroll the log by a page |
| `Home` / `End` | Jump to the oldest / newest buffered line |
| `g` | Follow the tail |
| `q` / `Esc` / `Ctrl-C` | Quit |
