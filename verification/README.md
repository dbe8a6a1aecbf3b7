# dockrtui

A terminal dashboard for Docker: containers, images, networks, compose projects and volumes, with
logs, live statistics, a shell in a container and image pulls.

The library under `src/` is the dashboard without its surroundings: what each tab holds and shows,
what a key does, what is asked of the engine and what becomes of its answers, and where everything
stands on the screen. It is written in Verus; each function states in its contract what it returns
or changes, and Verus proves it. The laws that relate several functions stand beside them as
public proof functions.

- `text`, `units`, `num`, `json`, `output`, `order`, `list`, `grid`, `geometry`, `key`, `theme`:
  texts, numbers, rows and rectangles
- `screen`, `pull`: a small terminal that replays progress output, and the pulls shown on it
- `containers`: the list, actions on containers, inspection, the shell, the rocket
- `images`, `networks`, `volumes`, `compose`: the other tabs
- `log_line`, `logs`, `stats`, `chart`: the panes over the tabs
- `splash`, `ui`, `app`: the start, the dashboard as a whole, and the rules of the main loop
- `draw`: what the tabs and panes look like, as texts, styles and places
- `docker`: where the engine's socket is looked for

What calls another crate stands in small functions marked `external_body`, each with a comment
that says what is taken on trust: `ratatui`'s layout, `serde_json`'s reader, `chrono`'s dates,
`rand`'s generator, and a few functions of `std`.

`app/` is the program around the library: the terminal, the engine's API, child processes, and the
animations, which are floating point. `tests/` holds the tests.
