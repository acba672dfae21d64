# gp_client

A GlobalProtect VPN client core, verified with Verus.

The login speaks the portal and gateway protocol the way the official client
does (prelogin, portal config, gateway login, MFA challenge) and produces the
cookie libopenconnect needs to build the tunnel. Around it sit the privileged
helper's bookkeeping (prompts, the attempt's deadline, trusted fingerprints),
the tunnel configuration handed to libopenconnect, and the GUI's state: saved
connections, traffic counters and the tray.

## Layout

- `src/` - the verified library. Each module states its behaviour in
  `requires`/`ensures` over plain values (`Seq`, `Option`, views of the
  library's types); the few calls into outside crates (`reqwest::Url`,
  `roxmltree`, `sha2`, `base64`, `urlencoding`, `x509-parser`, `zeroize`,
  `keyring`, the clock) go through small trusted wrappers whose contracts
  are documented where they stand.
  - `auth` - the login as a state machine: each step names the request to
    send, the host to resolve or the question to ask, and takes the outcome.
  - `prelogin`, `portal`, `gateway`, `credential`, `http`, `xml`, `error`,
    `profile`, `tls` - request bodies, reply parsing, errors, machine identity
    and certificate pinning.
  - `prompt`, `deadline`, `helper`, `openconnect` - the helper program's rules.
  - `runtime`, `stats`, `settings`, `commands`, `credentials`, `tray` - the
    GUI's state and decisions.
  - `text`, `digest` - string and digest helpers.
- `tests/` - tests on concrete values.
- `app/` - the helper program: stdin/stdout JSON lines, threads, the HTTP
  client and TLS configuration, and the libopenconnect boundary.
- `extras/` - the C shim that formats libopenconnect's variadic progress
  messages.
