# lazydb

The layout, text-measuring and state logic of a terminal database client,
verified with Verus.

- `src/` is the verified library. Each module states its behaviour in
  `requires`/`ensures` contracts over spec functions: cell widths and
  truncation (`cells`, `tabs`), shortcut-hint packing and wrapping
  (`shortcut_hints`), popups, scrollbars and dialog geometry (`completion`,
  `scrollbar`, `dialog`, `dialog_footer`, `panes`, `hits`), the editor's styled
  runs (`editor`, `editor_spans`), theme parsing and change tracking (`theme`),
  the update dialog (`update`), and the uninstall plan, report and PATH-block
  removal (`uninstall`), among others. The screens are laid out as plain
  values: the tab bar (`tab_bar`), confirmation dialogs (`overlay`), the
  console manager, the connection-group popups (`profile_group`), the explorer
  search, the principal overview, the relation data panel (`relation_data`),
  the editor's frame (`editor_frame`), the Redis browser's panes
  (`redis_keys_pane`) and the order of a whole frame (`frame_plan`), each with
  the click regions it registers. Laws relating several functions are
  public proof functions named `law_*`.
- Calls into `unicode-width`, `ratatui`, `sha2` and `std::path` go through small
  trusted wrappers whose contracts name what the outside code returns.
- `tests/` runs the library on concrete values.
- `app/` is the unverified shell around it: file system access, JSON, terminal
  styling, clock time and the few computations done in floating point.
