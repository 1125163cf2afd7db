# rcron

Runs a command at a given moment, as the user who asked for it.

- `src/` is the verified library: the job records and the rule that admits
  a request (`job`), the client's decision from its command line values to a
  plan (`client`), the reading of start times and the clock through `chrono`
  (`clock`), the daemon's queue of pending jobs and the steps of its
  scheduling loop (`scheduler`), the errors and their texts (`error`,
  `daemon_error`, `text`) and the shared file locations (`paths`).
- `app/` holds the two programs around it: the client, which reads the
  command line and writes the plan to the daemon's socket, and the daemon,
  which listens, keeps the queue's cache file and starts the processes.
  The daemon runs when the program is called as `daemon`.
