# tsc_runtime

The interactive parts of the tsc.hk site as a verified library:

- `src/scramble.rs` — the text-scramble animation as a state machine: glyphs
  sweep over the cells, then the goal text is revealed left to right. Proved:
  a fresh scramble ticks exactly twice per cell and settles on its goal,
  whatever the random rolls.
- `src/heading.rs` — the heading's hover and click rules (which scramble
  starts, which timers stop).
- `src/links.rs` — the project links' scrambles, at most one per link.
- `src/text.rs`, `src/glyphs.rs` — UTF-8 widths, padding, the glyph table.
- `src/render.rs` — bundle rendering and the view-tree version check.

`app/` holds the browser glue (DOM, timers, listeners) and the command that
lowers the page template to its JSON view tree.
