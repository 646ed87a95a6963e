# cim

The core of an identity and access management service, written in Verus:
the rules are executable Rust with `requires`/`ensures` contracts that Verus
proves.

- `src/` is the verified library.
  - `pim` — policy conditions (booleans, subjects, resource matching,
    regular expressions, time comparisons) and policy statements.
  - `web` — how an HTTP request becomes an access request, request headers,
    list/watch requests, the login form.
  - `oidc` — the OpenID Connect provider: scopes and audiences,
    authorization requests, codes and redirects, signing-key rotation,
    token claims, signing and checking tokens with `jsonwebtoken` (`jwt`),
    refresh-token rotation and offline sessions, the password
    and refresh grants, connectors and the discovery document. The
    request handlers that alternate store calls with decisions are written
    as steps (`refresh_flow`, `password_flow`, `code_flow`,
    `callback_flow`): each step takes the outcome of the previous call and
    says what comes next.
  - `account` — creating a user: a member of an existing account, or the
    records a new account is created with.
  - `put` — putting a policy or a role under an id: update or create.
  - `errors`, `core_errors` — error codes, their statuses and bodies.
  - `crypto` — password hashing and the digests and encodings the
    protocol uses, through `rust-argon2`, `sha2`, `base64`, `uuid`, `rand`.
  - `config`, `regexp`, `valid`, `json`, `num`, `text` — settings, input
    rules, and the text handling the rest relies on.
- `tests/` exercises the library on concrete values.
- `app/` is the command line: it reads the settings, prints the discovery
  document and the key set after a first key rotation. It also holds what
  the library leaves to a server: reading the client's address and reading
  checked claims into their type.
