# CentralD

CentralD manages Linux and Windows machines from one server. A managed client
enrolls with a one-paste invitation, keeps an outbound mTLS control stream, and
hands privileged work to a root-side broker that accepts only short-lived grants
signed by the server.

This repository holds the logic of CentralD as a Verus library. The functions in
`src/` are proved against their contracts. Calls into other crates stand behind
small wrappers that are not proved: their contracts say what is taken on trust, and
a wrapper of whose result nothing can be said has none.

- `src/common/` – configuration, invitations, grants, releases, hosts and URLs, the
  active credential pointer, and file changes that survive a crash
- `src/pki.rs` – the certificate policy, and issuing by it
- `src/platform/` – grant verification and replay protection
- `src/client/` – enrollment, the daemon and its control stream, the broker with
  its ledger, shell sessions, updates, rescue and the Windows service
- `src/admin/` – Admin profiles, shells, the server's settings and the updater feed
- `src/text.rs`, `src/codec.rs`, `src/crypto.rs`, … – what those are built from
- `app/` – the client program around the library: arguments, files, sockets,
  processes and serialization
- `tests/` – examples that run the library with the real crates

Where work alternates with input and output, the library holds the decisions: a
state machine takes what happened and says what to do next, or a plan lists the
changes to make, in order. The program carries them out and reports back.

Laws that span several functions are public proof functions beside the functions
they speak of: a crash at any point of a publication is recovered from, a consumed
grant is not consumed again, a marked job is not run again, a certificate does not
outlive its chain, only verified artifacts are installed.
