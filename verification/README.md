# sota

An in-vehicle software-over-the-air update client, written in Verus.

- `src/` is the verified library: parsing of package lists, the package
  managers' install steps and outcomes, chunked package transfers and their
  recovery after a restart, the JSON-RPC envelope used towards the remote
  vehicle interaction (RVI) node, the services the client offers through RVI,
  the command/event interpreters, and the decisions of the HTTP client and
  server handlers. Each public function states its result in its contract;
  the laws that relate several functions are public proof functions.
- `tests/` exercises the library on concrete values.
- `app/` is the program around it: options, the console loop, running the
  package manager processes and the file work of transfers.
