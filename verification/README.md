# autossh

The verified core of an ssh tunnel supervisor with a system-tray front end.

- `src/` is the library, verified with Verus: tray commands (`tray`), the
  window and tray icons (`tunnel_icon`), log lines and rotation (`logger`),
  the supervisor's decisions: reconnect back-off, waiting for ssh,
  interruptible sleeps, worker selection and configuration reloads
  (`supervisor`), and the supervision of one connection as a state machine
  that the worker loop drives (`worker`).
- `app/` performs the I/O around it: the tray icon and its event handlers,
  the log file, worker threads, ssh processes and the configuration poll loop.
- `tests/` exercises the library on concrete values.
