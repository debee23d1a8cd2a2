# phasma

The interaction core of phasma, a terminal interface for the caustic
Vlasov–Poisson solver, written in Verus. Every function under `src/` carries a
contract, and Verus proves all of them but seven trusted declarations whose
contracts it takes as given: three wrappers that call ratatui and ratatui-plt
(`layout_two`, `theme_names`, `colormap_names`) and four specifications of
std functions (`char::is_whitespace`, `String::push`, `String::pop`,
`str::to_lowercase`). Two results of these are named without a definition:
`split_two`, the areas ratatui's layout solver returns, and `lowercase`, the
Unicode lower-casing.

- `src/` is the library. It decides how keys and terminal events are routed
  through the overlays, tabs and global shortcuts (`app`, `tabs`,
  `components`), what each action changes and asks the event loop to do, how
  the screen is laid out (`layout`), how the command palette, export menu,
  help overlay, form fields and status bar behave, and how configuration files
  are listed, read into lines and shown (`config_files`, `text`,
  `tabs::toml_view`). The Run Control tab's step-progress panel (which
  integrator a run uses, which phase is under way, what part of the list a
  panel shows) is `tabs::step_progress`; the heatmap tabs' titles and strips
  are `tabs::heatmap_panels`; whether a jump command's argument reads as a
  number, by the grammar std's `f64::from_str` documents, is `float_text`.
  Laws that
  relate several calls (a key and its inverse, a cycle of tabs, what a bounded
  history keeps) are public proof functions next to the code they are about.
- `app/` is ordinary Rust around the library: converting crossterm events and
  ratatui areas, the clap command line, file and directory reading, drawing
  with ratatui, and the floating-point arithmetic (zoom, time windows, radial
  profiles, timing series) that the library leaves out.
- `tests/` runs the library on concrete inputs.
