# mysqldesk

A desktop control panel for a local MariaDB / MySQL server and phpMyAdmin
on Linux. The library in `src/` holds the panel's logic, verified with Verus;
`app/` is the GTK4 / libadwaita program around it.

## Layout

- `src/text.rs`: text operations (trimming, lines, words, number parsing and
  printing) with their mathematical definitions.
- `src/system/`: commands and their outcomes (`process.rs`), systemd status
  and actions (`service.rs`), port conflicts (`port.rs`), package managers.
- `src/database/`: server detection, option-file parsing, the root account,
  the database unit.
- `src/phpmyadmin/`: PHP and phpMyAdmin detection, the launch plan of the PHP
  built-in server (always bound to `127.0.0.1`).
- `src/config/`: the user's settings and themes.
- `src/ui/presentation.rs`: what the pages show for a given state.
- `app/`: windows and pages, running programs, file and port probes, the
  settings file, the phpMyAdmin child process.

Operations that need the outside world return a `Step`: either the result or
a `Probe` (run a program, look program names up in `$PATH`, check paths, list
a directory, read a file, probe a port) together with the state to resume from. `app/runner.rs` answers the
probes and feeds the observations back until the operation is done.
