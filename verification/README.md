# tonepoet_tui

The terminal screens of an audio converter, as a verified library.

Every screen, pane and dialog is a function from application state to a scene: what to
paint, in paint order, and which areas of the screen can be clicked. The contracts give
the scene and the areas exactly, as functions of the state. Actions on the state (the
disc browser) are described by a small model of that state, and the reports are
described as texts.

- `src/` is the library. `scene`, `style`, `geometry`, `layout`, `button_map` and `text`
  hold the vocabulary; `draw` and `draw_overlays` put the screens and dialogs together;
  `disc_browser_actions` and `dr_report` hold the actions and the reports.
- `tests/` runs the library with the real terminal crates linked.
- `app/` paints scenes with ratatui, converts keys, does what the library asks of its
  surroundings, and computes what needs floating point.

Colours are roles of a palette; `app/paint.rs` turns them into terminal colours. Numbers
that are measured with floating point reach the library in words.
