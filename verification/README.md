# koordinator

Coordinates the execution of the containers of a Kubernetes pod. The koordinator runs as
the parent of a container's process. It starts that process once the containers it depends
on are ready, and stops it once one of a set of other containers has terminated.

- `src/` holds the decisions, as a library that is verified with Verus: the configuration
  and its defaults (`config`, `duration`, `startup`), the reading of a pod's status (`pod`),
  the main loop (`coordinator`), the task that runs the child process (`process`), signals
  and their numbers (`signals`), and what the two loops do together (`laws`). The library
  does no I/O: its state machines take what was observed and answer with what is to be done.
- `app/` is the program around it: it reads the environment, watches the pod, runs the child
  process and delivers signals. `app/copy.rs` is the program of the init container.
- `tests/` runs the library.

The library relies on two outside crates: `libc` for the numbers of signals and
`duration-str` for reading durations.
