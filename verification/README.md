# sunsetr

A blue-light filter daemon for Wayland compositors: it moves the display's
colour temperature and gamma between day and night values, with transitions
placed around configured times or computed from the sun at given
coordinates.

## Layout

- `src/` is the library, verified with Verus. Each module states what it
  computes in `requires`/`ensures` contracts over mathematical models:
  - `period`: the periods of the day and how a change between them is classified.
  - `clock`, `solar`, `geo`, `schedule`: the transition windows of the clock
    modes, of the sun's events, and of geo mode in the coordinates' time zone.
  - `cycle`: the main loop's decisions (update checks, sleep lengths, reloads,
    events to subscribers).
  - `signals`: responses to process signals, the loop's message handling, and
    the sleep/clock-change bookkeeping.
  - `instance`, `spawn`, `state`, `ipc`, `logger`, `launcher`, `workflow`,
    `simulation`, `smoothing`, `report`: the lock-file record and instance
    conflicts, background spawning, state files, the event channel's client
    table, log line text, run settings, the geo command's choices, simulated
    time, fade decisions and the solar report's text.
  - `text`: character-level helpers (trimming, lines, numbers) with their
    specifications.
- `tests/` exercises the library on concrete values.
- `app/` is the program around the library: command line, signals, D-Bus and
  timer monitors, lock files, the event socket, astronomy on fractional
  coordinates, and the loop that carries out the library's decisions.
  Settings come from `key=value` lines in `~/.config/sunsetr/options` (and
  in `presets/<name>/options` for the active preset), then from
  `--key=value` options on the command line; a reload reads them again.
