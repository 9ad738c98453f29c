# command_timeout

Runs a command under three timeouts: a minimum that every command is granted, a
maximum at which it is killed however much it says, and a limit on how long it
may stay silent. Its standard output, standard error and exit status are captured, and a
command that runs into a timeout is killed with its whole process group.

* `src/` holds the decisions, verified with Verus: the timeouts and deadlines
  (`timeouts`), the captured streams (`stream`), what follows a timeout (`kill`),
  and the machine that leads a command from its launch to its output (`run`).
  `laws` states what holds of every command.
* `app/` spawns the process, waits, reads and kills, as `src/` says.
* `tests/` runs the decisions on a clock of its own.
