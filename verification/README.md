# content_filter

The decision core of a system-wide network content filter for macOS, written and proved in Verus,
with the two programs around it: the system extension that sees every new connection, and the
container app that installs it and switches it on.

- `src/` names the app behind a connection, decides the connection by an ordered rule list keyed on
  app and destination, says what to log, and tells the container app what each report of the OS
  means and what a command does next. `src/laws/` states what holds of all of it.
- `tests/` runs the library on concrete values.
- `app/` is the ordinary Rust around it: reading flow objects, the rule file, the unified log,
  sockets, the system-extension and filter-manager calls, and the commands of the user interface.

Every matcher of a rule is optional and they are ANDed. The first rule that matches a flow decides
it; a flow that no rule matches gets the default action, `drop` in an allowlist. A rule file that
cannot be loaded leaves the rules in force as they were; before the first load every flow is
allowed.

The app name that a rule compares with is the identity the OS reports for a process. It is not a
code-signature check.
