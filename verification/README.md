# scoreboard

The logic of a Pebble watch app that lists sports leagues and shows the
scores of their games, verified with Verus.

- `src/` is the library: every function there carries a contract that Verus
  proves, and the public `law_*` proof functions state what holds across calls.
- `tests/` runs the library on concrete values.
- `app/` is the watch program around it: windows, menus, drawing, time
  formatting and the phone link, written against the watch SDK and the screen
  framework.
