# win_context_menu

Show and interact with Windows Explorer context menus.

- `src/` is the verified library (Verus). It holds the decisions of the
  context-menu workflow on plain values: UTF-16 and ANSI text conversions
  (`wide`, `text`), COM initialization results (`com`), menu query flags,
  command-id ranges, the walk that turns raw menu entries into `MenuItem`s,
  popup selections and the injected paste entry (`menu`), selected items and
  the command invocations they lead to (`menu_items`), and the path rules of
  a multi-selection and PIDL sizes (`shell`).
- `app/` drives the Win32 shell with the `windows` crate (COM, `HMENU`s,
  `TrackPopupMenu`, `InvokeCommand`, the hidden owner window, the C FFI
  layer) and hands every answer to the library. It builds on Windows only.
- `tests/` exercises the library.
