# raccpack-tui

The terminal UI of raccpack, as a verified library and a thin program.

- `src/` — the library, verified with Verus: navigation and key routing
  (`app`, `nav`, `keys`), the screen states (`sniff`, `dig`, `operations`,
  `table`), the modal flows (`raid`, `pack`, `passphrase`, `reveal_modal`),
  the activity stream (`activity`, `activity_feed`), the command and worker
  event handling (`event`, `worker`), and the text every screen shows
  (`*_view`, `footer`, `help`, `styled`, `units`, `theme`, `palette`).
  Each public function states what it returns or changes; the proof
  functions (`lemma_*`) state the properties that span calls.
- `app/` — `racc-tui` itself: argument parsing, the terminal, drawing with
  ratatui, the worker thread that runs the core engine, and the event loop.
- `tests/` — the test suite, run against the library.
