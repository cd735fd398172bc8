# clioude

A code runner for the CliOuDE online editor: it connects to the server over a
websocket, receives a program, prepares (compiles) and runs it, forwards its
stdin and output, and reports its status, resource usage and exit code.

The messages are bytes with exactly one flag byte at their end:

| flag   | direction | meaning                          |
|--------|-----------|----------------------------------|
| `0xc0` | in        | run id + language                |
| `0xc1` | in        | code                             |
| `0xe0` | in        | stdin chunk                      |
| `0xe1` | out       | stdout chunk                     |
| `0xe2` | out       | stderr chunk                     |
| `0xe6` | out       | usage (elapsed, cpu, memory)     |
| `0xe7` | out       | status                           |
| `0xe8` | out       | exit code (last message)         |

## Layout

- `src/` is the verified library:
  - `protocol`: flags, framing, status/exit/usage messages;
  - `text`: lossy UTF-8 decoding and splitting command lines into words;
  - `language`: commands and the table of languages;
  - `events`: the events a run is told and the actions it asks for;
  - `session`: a run of the current runner as a state machine;
  - `legacy`: a run of the first form of the runner (C++ and Python only);
  - `watch`: clock, idle deadline, usage watcher, exit report;
  - `address`: the server's URL.
- `app/` is the program: it reads the configuration, talks to the server,
  starts and kills processes, and performs the actions that a run asks for.
- `tests/` runs the library on concrete inputs.
