# filter_design

A tool for designing digital filters (low-pass, band-pass, band-stop,
high-pass, differentiating; non-recursive and recursive) and running them on
model signals, split into a verified library and a desktop interface.

## Layout

- `src/` — the library, verified with Verus:
  - `models.rs`, `operation.rs` — parameter enumerations and the integer
    codes that drive the numeric core;
  - `numeric.rs` — the integer steps of the numeric core: the random
    sequence, the section layout of the recursive filter, the buffer lengths
    of an operation-mode run;
  - `validation.rs` — which parameter set is refused, and why;
  - `compute.rs` — when to recompute and what to tell the user;
  - `view.rs` — which plot, table and lines fit the results on display;
  - `table.rs` — CSV writing and field splitting, table row counts;
  - `notices.rs` — the queue of save notices;
  - `i18n.rs` — the choice of interface locale;
  - `themes.rs` — colour shading for the themes;
  - `widgets.rs` — the buttons of the plot scale row.
- `app/` — the window, panels, plots, file dialogs, message catalogue and the
  floating-point numeric core, built on `egui`/`eframe`.
- `tests/` — tests of the library.
