# zeropi

The verified core of ZeroPi, a portable launcher that installs and runs the Pi
coding agent against a local llama.cpp server on Windows.

- `src/` is the verified library: the suite and model
  configurations and how a model configuration is generated, the folder
  layout, the agent's configuration files, the command lines of the server and
  the agent, the choice of llama.cpp build from a release listing, the
  auto-setup as a state machine, the start-up decision, and the decisions taken
  while unpacking archives.
- `app/` is the program around it: file and network I/O, JSON files on disk,
  the Windows Job Object, and the loops that perform what the library decides.
- `tests/` runs the library on concrete values.
