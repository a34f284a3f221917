# Velosi Tracker

A desktop tracker of application and website use, with a focus mode that
blocks distracting applications and websites. This crate holds its logic as
a library verified with Verus, and the desktop application around it.

## Layout

- `src/` — the verified library:
  - `text` — character-level string operations specified over `Seq<char>`;
  - `models` — activities, categories, mappings, segments;
  - `categorize` — `|`-separated patterns and the category of an activity;
  - `tracker` — the activity tracker and the rules that name applications and
    segments from what the system reports (macOS and Windows);
  - `tracking` — tracking state and timed or indefinite pauses;
  - `activity` — what the tracking loop does after each observation;
  - `keyed` — lists keyed by distinct strings;
  - `focus` — the focus-mode cache, decisions and block throttling;
  - `events` — cache-invalidation payloads;
  - `analytics` — durations, daily totals, top applications, timelines;
  - `overlay`, `tray`, `scripts` — overlay windows, tray menu, macOS scripts;
  - `proxy`, `firewall` — the blocking proxy and firewall rules;
  - `migrations`, `seed`, `mappings`, `pomodoro` — schema, starting data,
    grouped mappings and settings, pomodoro sessions;
  - `laws` — properties that relate several operations.
- `tests/` — tests of the library.
- `app/` — the Tauri application: commands, database, tray, proxy server and
  the tracking loop, calling the library for every decision.
