# iclock_sync

Forwards attendance punches from ZKTeco BioTime (iClock) terminal servers to
a time-keeping service.

- `src/` is the verified library: the records exchanged with both servers,
  the decoding of the service settings (including the AES-encrypted API key),
  the description of every HTTP request, the start-up checks, and the
  per-terminal polling loop as a state machine (`port_loop`), with the laws it
  keeps.
- `app/` is the program: it reads the environment, performs the HTTP calls,
  files and logging, and drives one state machine per enabled terminal.
- `tests/` exercises the library on concrete values.
