# linear_ui

The presentation logic of an interactive terminal browser for Linear issues,
verified with Verus.

- `src/` is the verified library: column layout (`columns`), text cutting and
  padding (`text`), link extraction, ordering and de-duplication (`links`,
  `order`), the issue list's rows (`rows`), the detail view's links box
  (`detail`), overlays and menus (`overlays`), screen texts (`panels`) and popup
  geometry (`geometry`). Link matching goes through the `regex` crate and area
  splitting through ratatui's `Layout`, each behind one trusted wrapper.
- `app/` renders with ratatui what the library computes.
- `tests/` exercises the library on concrete values.
