# admin_http

The rules of a remote-desktop server's admin console, verified with Verus:
who may list and change accounts, devices, device groups and address
books; how console and desktop-client logins are checked; how listings are
filtered by access and status and cut into pages; and how the group and
account trees are assembled.

- `src/` — the verified library: `access` (permissions and request checks),
  `login` (login decisions, session claims), `password` (bcrypt, behind
  trusted wrappers), `listing` (visibility, status filters, paging),
  `summary` and `tree` (what the console shows), `text` (trimming, byte
  lengths, token prefix, decimal notation), `records`, `error`, `config`.
- `app/` — the HTTP server (axum): routes, storage calls through the
  `AdminStore` trait, JSON Web Tokens, JSON bodies and the console's pages.
- `tests/` — tests of the library on concrete values.
