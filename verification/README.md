# ai00-run

Runtime management for Node.js and Python projects, with its logic proved
correct by Verus.

- `src/` is the verified library: version rules, run configurations
  (building, checking, merging, summaries, reading from environment
  variables), command lines and their reading, the environment checks and
  their report, the Node.js and Python installation layouts, and the readers
  of `uv`, `pip` and `python --version` output. Every function there carries
  a contract; laws that span functions are public proof functions next to
  the definitions they speak of.
- `app/` is the input and output around it: files, processes, downloads,
  archives, environment variables and the async entry points.
- `tests/` runs the library on concrete values.
