# SpareCycles node

The logic of a compute-sharing node: it installs a job runtime, claims render
jobs, runs each one in a sandbox under the contributor's own limits, and reports
the result. `src/` is a Verus library; every function in it is verified against
its contract, but for the wrappers around outside calls, whose contracts are
trusted (see below).

The library never touches the machine. It says what to do next, as a step, and
the host hands back the answer:

- `sandbox`, `isolation`: the clamped resource caps and the container's command
  line, with what holds of every such line.
- `engine`: commands inside the WSL2 distro, and files crossing as tar streams.
- `render`, `render_laws`: one render job, and what holds of every run of one.
- `probe`: what the machine can do for a job.
- `wsl`, `provision`, `install`, `install_laws`: installing the runtime.
- `digest`: SHA-256 of artifacts, and the pins that digests are held to.
- `job_runner`, `job_laws`: one assigned job, from its input to its report.
- `node`, `node_laws`: a headless node.
- `gpu`: the graphics card and the idle rule.
- `command`, `text`: processes and text as plain values.

Functions named `law_*` state what holds across functions; their doc comments say
it in words. The items marked `external_body` or `assume_specification` are the
ones that are trusted: calls into `std`, `tar` and `sha2`, each with what is
claimed of it.

`app/` is the host: processes, files, HTTP, the desktop shell. `tests/` runs the
library on concrete values.
