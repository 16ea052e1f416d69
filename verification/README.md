# herdr — remote transport and settings logic, verified

`src/` is a Verus library. Its functions are verified against their
`requires`/`ensures` contracts, except the small wrappers marked
`#[verifier::external_body]` around calls into std and the outside crates,
whose contracts say what those calls do and are trusted. The public
`lemma_*` proof functions state properties that hold across functions.

- `remote` — the `--remote` command line, the shell commands sent over SSH,
  the local bridge socket names, and (`remote::setup`) the dialogue that makes
  sure a matching herdr runs on the remote host.
- `ws_transport` — the WebSocket gateway and bridge: their command lines, the
  checks before the gateway binds, the upgrade's password check, public-key
  challenge/response (`auth`, over `ssh-key` in `ssh`), certificate pinning
  (`tls`) and background process control (`control`).
- `settings` — the Settings screen: keyboard and mouse navigation (`nav`),
  the screen state with theme preview, apply and cancel (`screen`), the port
  editor, the gateway on/off and port flows (`gateway`), and what
  each save writes to `config.toml` (`writes`).
- `config` — the configuration model and its defaults.
- `encoding`, `text` — digests, Base64 and character-level string helpers.

`app/` is ordinary Rust around the library: the tokio/rustls/tungstenite
runtimes, processes, files, sockets, and serde copies of the configuration
types. It reaches the rest of the program through `app::host::Host`.

`tests/` exercises the library, with the outside crates linked.
