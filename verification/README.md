# tutorial_app

The decisions behind a small Leptos page, verified with Verus, and the page
itself.

- `src/` — the verified library:
  - `text` — decimal formatting of integers and character helpers;
  - `number_input` — `str::parse::<i32>` semantics, error messages, the number field;
  - `counter` — the click counter that restarts at the winning mark;
  - `styles` — the four style toggles of the parent/child section;
  - `name_log` — the name log kept by the effect and by the hand-written listener;
  - `loading` — the async loaders' answers and the lines shown while they run;
  - `todo` — to-do identifiers (random version-4 UUIDs) and the action's debug lines.
- `app/` — the Leptos components, which render the page and call the library.
- `tests/` — tests of the library on concrete values.
