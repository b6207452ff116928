# prompt_footer

The decision logic of a terminal prompt's footer, verified with Verus.

- `src/footer.rs`: which rows the footer owns (status line, body row) and its
  height budget; the layout the footer draws.
- `src/left_side.rs`: the footer's left side (exit and paste notices, history
  search field, Vim marker, mode indicator with permission mode, pills and
  hints) and its text.
- `src/bridge.rs`: the Remote Control pill.
- `src/notifications.rs`: segmented footer pills and their colors.
- `src/history_search.rs`: the reverse history search state machine.
- `src/history_search_input.rs`: the search field's label, cursor and width
  (display width from `unicode-width`).
- `src/language_picker.rs`: the language picker's submission rule and text.
- `src/spinner_glyph.rs`: the spinner glyph and its reduced-motion dimming.
- `src/text.rs`: Unicode white space, trimming, decimals, UTF-8 cursors and
  substring search.
- `src/permission.rs`, `src/theme.rs`: permission modes and theme slots.

`app/` draws these with `iocraft` and turns key presses into the search
machine's transitions.
