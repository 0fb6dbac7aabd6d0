# rust_chat

Client-side logic of a line-oriented TCP chat, verified with Verus.

- `src/` is the verified library: `text` (character-level string
  operations with their specifications), `message` and `parser` (how
  server lines are classified), `app` and `session` (history, scrolling,
  key handling), `theme`, `render` and `screen` (the styled lines and the
  layout of a frame).
- `app/` is the terminal program around it: network I/O with tokio, the
  crossterm event loop and the ratatui widgets. Started as `cli` it runs
  the plain line-mode client.
- `tests/` runs the library on concrete inputs.
