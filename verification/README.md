# zenvecha

Read-only Linux kernel capability discovery and development-readiness
assessment, with a verified core.

- `src/` — the library, verified with Verus: the `.config` parser, the
  capability registry and its probes over a `SystemSnapshot`, the
  capability dependency graph, the readiness / risk / compatibility /
  decision / prediction engines, the inspection report lines, the release
  check parser and the livepatch skeleton. Every function carries a
  contract; the laws of the library are public proof functions next to
  the code they speak of.
- `tests/` — tests on concrete values.
- `app/` — the command-line program: it reads `/proc`, `/sys`, `/boot`
  and the installed tools into a `SystemSnapshot`, runs the library and
  prints the results.
