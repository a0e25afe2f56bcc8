# blokator

A simple system-wide CLI adblocker that works on the hosts file: it syncs
hosts lists from a set of repos into a local hosts file, applies that file to
the system (keeping a backup), restores the backup, manages the repos list
(optionally through presets, and through TOR for onion repos), and applies or
restores the hosts file on a rooted Android device over ADB.

Layout:

- `src/` is the verified library: the text model (`text`), the repos list
  (`repos`), syncing (`sync`), applying and restoring (`actions`), plain file copies and what they
  report when the source cannot be read (`file_copy`), logging and
  messages (`logging`, `messages`, `table`), colours, the TOR proxy decision
  (`tor`), NetworkManager restarts (`services`), the ADB plans (`android`) and
  the configuration paths (`config`), and interrupts (`signals`). Contracts
  say when each operation succeeds and what it produces; the laws (restoring
  undoes applying, a repo that was added is listed, deleting it right after
  gives the list back, a second apply or restore is refused, syncing appends
  each repo's text) are proof functions next to the functions they speak of.
- `app/` is the program around it: argument parsing, files, the network,
  processes (`adb`, the init system), spinners and coloured printing.
- `tests/` runs the library on concrete values.
