# phira_vrenxz

The decision logic of a rhythm-game client, written in Verus and proved
against its contracts.

- `src/` is the verified library. Each module holds one area of the game:
  modifiers (`mods`), settings and performance profiles (`config`), play rules
  (`play_rules`), best records (`record`), the scene stack (`scene_stack`),
  the text-input dialog (`text_edit`), the first-run wizard (`setup_wizard`),
  chart menus and screen events (`song_menu`, `song_events`, `pause_view`,
  `achievement_order`, `dialog`, `crash`), charts and their resources
  (`chart_format`, `chart_order`, `judge_cache`, `gif`, `note_buffer`,
  `res_pack`, `texture`), archives (`zip_paths`), checksums and mentions
  (`checksum`, `mentions`), the chart service (`xcsim`), work splitting
  (`parallel`) and size texts (`size_format`). Calls into `regex`, `rand`,
  `sha2` and `hex` go through small trusted wrappers whose contracts say what
  those crates document.
- `tests/` runs the library on concrete values.
- `app/` is the unverified glue: network requests, archive extraction,
  threads, serialisable copies of library types and the floating-point parts.
