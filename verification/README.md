# rust_shop

The verified core of a small web framework and the shop back end built on it.

- `src/` is the library, written in Verus: path patterns, cookies and private
  cookies, sessions, login and password checks, role-based access decisions,
  token lifetimes and JWT signing and reading, the security configuration,
  the automatic transaction of a request and its nesting, the WeChat token bookkeeping, the routing table, request extraction
  rules, form parsing, route discovery in controller files, and the text that
  the code generators produce (SQL statements of entities, handler proxies,
  route registrations).
- `tests/` runs the library on concrete values.
- `app/` is ordinary Rust around the library: configuration files, JSON
  encodings, Redis stores, walking the controller directory, templates and
  the process-wide cache.
