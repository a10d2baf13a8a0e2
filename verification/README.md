# vantumpos

The rules of the VantumPOS till for Serbian retail, written in Verus and
proved against their contracts: settings and tax rates, cashier shifts and the
drawer count, user accounts and the employee profile the ZoR čl. 87–91 guards
read, the working-time register (ZoR čl. 55 st. 6, ZEOR čl. 24 tač. 1), and
received supplier documents (ZoT čl. 29 st. 1).

## Layout

- `src/` — the verified library. Each module states its rules as spec
  functions and each public function's `ensures` says exactly what it returns,
  including which error, with which message and details, on which input. Properties that
  span calls (a correction appends the next version, a closed period takes no
  write, seeding and migrating are idempotent, a written date reads back, …)
  are public proof functions beside the code they speak of.
- `tests/` — executable scenarios against the library.
- `app/` — the shell around it: SQLite storage through `rusqlite`, the
  signed-in session, JSON settings through `serde`, the command surface, and
  the services the host platform supplies (credential hashing, text folding,
  the NBS rate feed, the čl. 53 and čl. 87–91 assessments of a day).

Calls the library does not verify itself go through trusted wrappers with
stated contracts: the `time` crate's calendar functions in `src/calendar.rs`,
and the std string functions vstd gives no specification in `src/text.rs`.
