# ddog

A command-line client for the Datadog API, built around a library whose
behaviour is specified and proved with Verus.

- `src/` is the verified library: the safety limits, time-window resolution
  (through chrono), the JSON model of responses and request bodies, output
  projection under a token budget, the command-line grammar of every command,
  the request plan each command makes, and how answers are shown.
- `app/` is the executable around it: argument and environment reading, HTTP
  through reqwest on tokio, printing (tables through tabled), and the
  floating-point statistics of metric series.
- `tests/` exercises the library from outside.
