# wezterm_gpui

The verified core of a GPUI front end for WezTerm: the decisions that the
window makes, written in Verus with their contracts proved.

- `split_layout`, `split_laws`: the pane split tree of a tab, its zoom,
  focus moves, rotation and pruning, with the laws that tie them together.
- `tab_stack`, `lua_ui`: the tabs of a window, which one is active, which
  one takes over when a tab closes; tab titles and tab-bar visibility.
- `commands`, `palette_rows`, `palette_dispatch`: the command palette's
  catalog, its rows and filter, and what each palette id asks the window to
  do.
- `launcher`, `picker`, `domains`: launcher and picker rows, what choosing
  one does, and which mux domains are offered for new tabs.
- `keys`: what a key press does in the terminal, the search bar, copy mode,
  quick-select and pane-select.
- `find`, `pane_search`, `quick_select`, `pane_text`: scrollback search,
  quick-select spans (with the `regex` crate) and labels, and the text of a
  pane's rows. Tab titles are measured in terminal cells with `termwiz`.
- `selection`, `selection_text`, `hover`, `glyph`, `boxdraw`, `placement`, `win_zorder`,
  `tab_strip`, `cycle`, `text`: selection geometry and text, link hovering, pixel
  helpers, box-drawing arms, window placement and stacking, the tab strip
  model, wrapping list selection and string helpers.

`app/` holds ordinary Rust around the library: the `wezterm gpui`
subcommand that starts the window process, event-handling functions
written against the `ShellHost` and `PaneHost` traits (which a GPUI window
implements to hand its events to the library), conversions to termwiz key
types, and the floating-point painting helpers. The GPUI window itself is
not part of this crate.
