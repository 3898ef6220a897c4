# al1s

A small web service for managing Hyper-V virtual machines (listing, details,
host name, and login with Windows credentials that yields a signed token).

- `src/` is the verified library: the listing and lookup of virtual machines
  (`virt::list`, `virt::getvm`), the namespace fallback of the management
  connection (`virt::connect`), the login flow with its token handling
  (`auth`), the host name taken from command output (`host`), the status
  codes and bodies of the endpoints (`routes`: 200 on success, 404 for a
  missing virtual machine, 500 when the management service or the
  `hostname` command fails), and text helpers
  (`text`). The connection and the login are step functions: the caller
  performs each action and reports what it observed.
- `app/` is the server around it: axum routes, the OpenAPI document, the
  WMI/COM calls, the Windows logon call, JSON web token signing, the SQLite
  token store and the `hostname` command.
- `tests/` runs the library on concrete values.
