# qb_sync

A service that reads account balances from QuickBooks Desktop and writes them, with the time of the
run, to cells of Google Sheets.

`src/` is the library, verified with Verus: what the service does next, on which values, and what it
says about it.

| module        | what it decides                                                             |
|---------------|-----------------------------------------------------------------------------|
| `service`     | the course of a run, its reports and exit code                              |
| `worker`      | the course of the QuickBooks exchange over COM                              |
| `listing`     | the calls that list the processes, and whether the list can be relied on    |
| `process`     | which `qbw.exe` processes belong to the session, and which to the run       |
| `termination` | the calls that terminate a list of processes                                |
| `sheets`      | what goes to which cell, and what a round of updates comes to               |
| `logging`     | which records are written, how a line reads, where the log file is          |
| `config`      | the configuration, and what a run takes from it                             |
| `clock`       | local time and the formats it is written in (through `chrono`)              |
| `text`        | numbers as text                                                             |

`app/` is the program around it: system calls, threads, timers, files and the network. It makes the
calls that the library names and hands their replies back. The QuickBooks request processor, the
Sheets client and the configuration loader are linked in through `app/backend.rs`.

QuickBooks processes are terminated only where they can be told from those that were open before the
run: if the processes could not be listed then, none is terminated.

`tests/` runs the library on concrete values.
