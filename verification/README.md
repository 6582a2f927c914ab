# tictactoe

The rules of a bevy tic-tac-toe game, verified with Verus.

- `src/` is the library: the board (`game`), who drives each player
  (`players`), the end of a game (`outcome`), the computer player (`ai`),
  what the buttons do and how the grid of buttons is laid out (`ui`), the
  app's screens (`state`), and properties that span these (`laws`).
- `app/` is the bevy program around it: plugins, systems, entities, timers,
  tweens and scene files. Its systems read the ECS, call the library, and
  apply what the library returns.
- `tests/` runs the library on concrete boards.
