# nekoland_shell

Shell-side policy of the nekoland Wayland compositor, written in Verus: every function of the
library states its behaviour in `requires` / `ensures` over mathematical models and is proved
against it.

- `src/` — the verified library. Each compositor system is a function from plain values (the
  windows, outputs, workspaces and requests it reads) to the values it writes and the effects
  it asks for; entity-world plumbing, process spawning and socket I/O stay with the caller.
  Laws that relate several operations are public proof functions named `law_*`.
- `tests/` — executable tests of the library on concrete values.
- `app/` — the `nekoland-msg` command-line client (argument reading, help and completion
  rendering, the IPC socket) and the process launcher around the library's launch decisions.
