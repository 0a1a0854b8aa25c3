# ccf_gpui_widgets

The state and rules behind a set of desktop UI widgets (text editing, password
fields, pickers for files, directories and colours, selection lists, dialogs),
written in Verus and proved against their contracts.

Layout:

- `src/utils` — text offsets over UTF-8, colour parsing and formatting, path
  parsing against the file system.
- `src/theme.rs` — the colour themes.
- `src/widgets` — one module per widget: its state as a model (`View`), the
  operations on it, and the laws they obey (`law_*` proof functions).
- `tests/` — tests of the library on concrete values.
- `app/` — what stays outside the verified core: floating-point colour spaces
  and number formatting, the working directory, timers and native dialogs.
