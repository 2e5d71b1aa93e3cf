# dobby

Proxmox LXC deployment automation: one binary in three personas — the CLI
on the workstation, the Keeper daemon in its own LXC on the Proxmox node,
and the Elf inside each managed LXC.

## Layout

- `src/` — the verified library (Verus). It holds the project's logic with
  its contracts:
  - `bootstrap_token` — one-time pairing tokens and their stored SHA-256 form;
  - `auth` — workstation Ed25519 keys, the Pair challenge, the Keeper's
    registry of paired workstations;
  - `keeper_service` — the Pair conversation as a state machine (request
    checks, registry, token check, enrolment);
  - `keeper_init` — validation of `dobby keeper init` requests, the target
    directory decisions, and the files init writes;
  - `tls`, `x509` — the Keeper CA and host certificate, PEM parsing and
    certificate fingerprints;
  - `manifest` — `dobby.toml` and its convention-over-configuration defaults;
  - `commands`, `cli` — what each subcommand comes to, including the client
    side of `dobby pair`;
  - `state`, `path`, `text`, `hex`, `net`, `crypto` — tempfile naming for
    atomic writes, paths, text scanning, hex, addresses and the primitives
    taken from `sha2`, `subtle`, `rand`, `const-hex`, `ed25519-dalek`.
- `tests/` — tests of the library.
- `app/` — the `dobby` binary: argument parsing, files, the gRPC server and
  client, and the daemon loop around the library.

Verus checks the proofs from `src/lib.rs`; the tests run against the
compiled library with the outside crates linked.
