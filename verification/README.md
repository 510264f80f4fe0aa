# selection_monitor

Decides, on a Windows desktop, when text has been selected with the mouse, finds
the text and its place on the screen, and reports it.

- `src/` is the verified library. It decides over plain values and makes no
  system call but for the clock. Where system calls and decisions take turns, a
  function takes what the system has answered and returns what to ask next.
  - `hook`, `hit_test`, `debounce`: from mouse messages to drags and runs of
    clicks.
  - `worker`, `uia`, `clipboard`: from a trigger to the selected text.
  - `global`, `lifecycle`: reports, log lines, start and end.
  - `geometry`, `text`: points, packed words, characters.
  - `hook_laws`, `debounce_laws`, `worker_laws`, `clipboard_laws`, `uia_laws`:
    what holds over whole runs.
- `app/` is the Node.js addon: it makes the system calls that the library asks
  for. Its `win32` module is built on Windows only.
- `tests/` runs the library.
