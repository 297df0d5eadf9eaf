# fsc

Makes the privacy screen of the ScreenConnect client (and of Remote
Utilities) semi-transparent, so that what happens behind it stays visible.
Three Windows programs share this code: the core, which looks at the
top-level windows every 50 ms; a Windows service, which starts the core in
the interactive session and starts it again when it exits; and a small
helper tool that looks for the installed service.

- `src/` is the verified library (Verus): the decisions these programs
  make about windows, processes, the core and the service, as functions and
  small state machines with contracts, and the laws that hold across their
  steps (`law_*` proof functions). The service's start-up checks (winlogon
  found, token and environment obtained, core created) stop it on the first
  failure and stay with the Win32 calls in `app/`.
- `app/` holds the programs: the Win32 calls, logging and process
  plumbing. It feeds what each call returned to the library and performs
  the work the library asks for.
- `tests/` runs the library on concrete values.
