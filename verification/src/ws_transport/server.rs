//! The gateway (`herdr ws-server [options]`): its command line, the checks
//! made before it binds, and the password check on each upgrade request.
use vstd::prelude::*;
use vstd::string::*;

use crate::remote::{opt_view, take_value, value_after, views};
use crate::text::{
    ascii_lowercase, chars_of, decimal, format_decimal, owned, parse_bounded, parse_unsigned,
    push_str, str_eq, strip_prefix, to_ascii_lowercase,
};
use crate::ws_transport::auth::{default_authorized_keys, opt_str_view, spec_ssh_dir};
use crate::remote::join_path;
use crate::ws_transport::{ArgStep, Parsed};

verus! {

/// Configuration for `herdr ws-server`.
#[derive(Debug, Clone)]
pub struct WsServerConfig {
    /// TCP port to listen on (8080 unless given).
    pub port: u16,
    /// Bearer password; `None` disables the password check.
    pub password: Option<String>,
    /// Listen with TLS (`wss://`).
    pub tls: bool,
    /// PEM certificate path (generated at the default path when absent).
    pub cert_path: Option<String>,
    /// PEM private key path (generated at the default path when absent).
    pub key_path: Option<String>,
    /// SSH public-key challenge-response authentication.
    pub pubkey_auth: bool,
    /// `authorized_keys` path (`~/.ssh/authorized_keys` when absent).
    pub authorized_keys: Option<String>,
}

/// The mathematical content of a [`WsServerConfig`].
pub struct ServerConfigView {
    pub port: u16,
    pub password: Option<Seq<char>>,
    pub tls: bool,
    pub cert_path: Option<Seq<char>>,
    pub key_path: Option<Seq<char>>,
    pub pubkey_auth: bool,
    pub authorized_keys: Option<Seq<char>>,
}

impl View for WsServerConfig {
    type V = ServerConfigView;

    open spec fn view(&self) -> ServerConfigView {
        ServerConfigView {
            port: self.port,
            password: opt_view(self.password),
            tls: self.tls,
            cert_path: opt_view(self.cert_path),
            key_path: opt_view(self.key_path),
            pubkey_auth: self.pubkey_auth,
            authorized_keys: opt_view(self.authorized_keys),
        }
    }
}

impl Default for WsServerConfig {
    fn default() -> (r: Self)
        ensures
            r@ == (ServerConfigView {
                port: 0,
                password: None,
                tls: false,
                cert_path: None,
                key_path: None,
                pubkey_auth: false,
                authorized_keys: None,
            }),
    {
        WsServerConfig {
            port: 0,
            password: None,
            tls: false,
            cert_path: None,
            key_path: None,
            pubkey_auth: false,
            authorized_keys: None,
        }
    }
}

/// What a `ws-server` command line asks for.
#[derive(Debug, Clone)]
pub enum ServerArgs {
    /// Run the gateway with this configuration.
    Run(WsServerConfig),
    /// Print the usage text and exit successfully.
    Help,
}

/// The port a text names, as `u16::from_str` reads it.
pub open spec fn port_value(v: Seq<char>) -> Option<u16> {
    match parse_unsigned(v) {
        Some(n) => if n <= 65535 {
            Some(n as u16)
        } else {
            None
        },
        None => None,
    }
}

/// Setting the port from its text, or the error naming the text.
pub open spec fn with_port(two: bool, v: Seq<char>, c: ServerConfigView) -> ArgStep<ServerConfigView> {
    match port_value(v) {
        None => ArgStep::Fail("invalid port: "@ + v),
        Some(p) => ArgStep::Continue(two, ServerConfigView { port: p, ..c }),
    }
}

/// The effect of the option at `i` on the configuration built so far.
pub open spec fn server_step(args: Seq<Seq<char>>, i: int, c: ServerConfigView) -> ArgStep<ServerConfigView> {
    let a = args[i];
    if a == "--port"@ || a == "-p"@ {
        match value_after(args, i, "--port"@) {
            Err(e) => ArgStep::Fail(e),
            Ok(v) => with_port(true, v, c),
        }
    } else if "--port="@.is_prefix_of(a) {
        with_port(false, a.skip("--port="@.len() as int), c)
    } else if a == "--password"@ {
        match value_after(args, i, "--password"@) {
            Err(e) => ArgStep::Fail(e),
            Ok(v) => ArgStep::Continue(true, ServerConfigView { password: Some(v), ..c }),
        }
    } else if "--password="@.is_prefix_of(a) {
        ArgStep::Continue(false, ServerConfigView { password: Some(a.skip("--password="@.len() as int)), ..c })
    } else if a == "--tls"@ {
        ArgStep::Continue(false, ServerConfigView { tls: true, ..c })
    } else if a == "--cert"@ {
        match value_after(args, i, "--cert"@) {
            Err(e) => ArgStep::Fail(e),
            Ok(v) => ArgStep::Continue(true, ServerConfigView { cert_path: Some(v), ..c }),
        }
    } else if a == "--key"@ {
        match value_after(args, i, "--key"@) {
            Err(e) => ArgStep::Fail(e),
            Ok(v) => ArgStep::Continue(true, ServerConfigView { key_path: Some(v), ..c }),
        }
    } else if a == "--pubkey-auth"@ {
        ArgStep::Continue(false, ServerConfigView { pubkey_auth: true, ..c })
    } else if a == "--authorized-keys"@ {
        match value_after(args, i, "--authorized-keys"@) {
            Err(e) => ArgStep::Fail(e),
            Ok(v) => ArgStep::Continue(true, ServerConfigView { authorized_keys: Some(v), ..c }),
        }
    } else if a == "--help"@ || a == "-h"@ {
        ArgStep::Help
    } else {
        ArgStep::Fail("unknown option: "@ + a)
    }
}

/// The options from index `i` on, applied in order.
pub open spec fn server_scan(args: Seq<Seq<char>>, i: int, c: ServerConfigView) -> Parsed<ServerConfigView>
    decreases args.len() - i,
{
    if i < 0 || i >= args.len() {
        Parsed::Config(c)
    } else {
        match server_step(args, i, c) {
            ArgStep::Fail(e) => Parsed::Error(e),
            ArgStep::Help => Parsed::Help,
            ArgStep::Continue(two, next) => server_scan(args, i + 1 + (if two { 1int } else { 0int }), next),
        }
    }
}

/// The configuration a command line starts from: port 8080, nothing else.
pub open spec fn initial_server_config() -> ServerConfigView {
    ServerConfigView {
        port: 8080,
        password: None,
        tls: false,
        cert_path: None,
        key_path: None,
        pubkey_auth: false,
        authorized_keys: None,
    }
}

/// What a `ws-server` command line asks for.
pub open spec fn spec_parse_server_args(args: Seq<Seq<char>>) -> Parsed<ServerConfigView> {
    server_scan(args, 0, initial_server_config())
}

/// Reads a port number.
fn parse_port(v: &str) -> (r: Result<u16, String>)
    ensures
        match port_value(v@) {
            Some(p) => r == Ok::<u16, String>(p),
            None => r matches Err(m) && m@ == "invalid port: "@ + v@,
        },
{
    let cs = chars_of(v);
    match parse_bounded(cs.as_slice(), 65535) {
        Some(n) => Ok(n as u16),
        None => {
            let mut m = owned("invalid port: ");
            push_str(&mut m, v);
            Err(m)
        },
    }
}

/// Applies the option at `i`: `Ok(Some(two))` to go on (`two` when the
/// following argument was consumed too), `Ok(None)` for the help.
fn server_step_exec(args: &[String], i: usize, cfg: &mut WsServerConfig) -> (r: Result<Option<bool>, String>)
    requires
        i < args@.len(),
    ensures
        match server_step(views(args@), i as int, old(cfg)@) {
            ArgStep::Continue(two, next) => r == Ok::<Option<bool>, String>(Some(two)) && final(cfg)@ == next,
            ArgStep::Help => r == Ok::<Option<bool>, String>(None),
            ArgStep::Fail(e) => r matches Err(x) && x@ == e,
        },
{
    let ghost va = views(args@);
    let a: &str = args[i].as_str();
    assert(va[i as int] == a@);
    if str_eq(a, "--port") || str_eq(a, "-p") {
        let v = take_value(args, i, "--port")?;
        cfg.port = parse_port(v.as_str())?;
        return Ok(Some(true));
    }
    if let Some(v) = strip_prefix(a, "--port=") {
        cfg.port = parse_port(v.as_str())?;
        return Ok(Some(false));
    }
    if str_eq(a, "--password") {
        let v = take_value(args, i, "--password")?;
        cfg.password = Some(v);
        return Ok(Some(true));
    }
    if let Some(v) = strip_prefix(a, "--password=") {
        cfg.password = Some(v);
        return Ok(Some(false));
    }
    if str_eq(a, "--tls") {
        cfg.tls = true;
        return Ok(Some(false));
    }
    if str_eq(a, "--cert") {
        let v = take_value(args, i, "--cert")?;
        cfg.cert_path = Some(v);
        return Ok(Some(true));
    }
    if str_eq(a, "--key") {
        let v = take_value(args, i, "--key")?;
        cfg.key_path = Some(v);
        return Ok(Some(true));
    }
    if str_eq(a, "--pubkey-auth") {
        cfg.pubkey_auth = true;
        return Ok(Some(false));
    }
    if str_eq(a, "--authorized-keys") {
        let v = take_value(args, i, "--authorized-keys")?;
        cfg.authorized_keys = Some(v);
        return Ok(Some(true));
    }
    if str_eq(a, "--help") || str_eq(a, "-h") {
        return Ok(None);
    }
    let mut m = owned("unknown option: ");
    push_str(&mut m, a);
    Err(m)
}

/// Parses the arguments of `herdr ws-server [options]`.
pub fn parse_args(args: &[String]) -> (r: Result<ServerArgs, String>)
    ensures
        match spec_parse_server_args(views(args@)) {
            Parsed::Config(c) => r matches Ok(ServerArgs::Run(x)) && x@ == c,
            Parsed::Help => r matches Ok(ServerArgs::Help),
            Parsed::Error(e) => r matches Err(x) && x@ == e,
        },
{
    let ghost va = views(args@);
    let mut cfg = WsServerConfig {
        port: 8080,
        password: None,
        tls: false,
        cert_path: None,
        key_path: None,
        pubkey_auth: false,
        authorized_keys: None,
    };
    let mut i: usize = 0;
    while i < args.len()
        invariant
            va == views(args@),
            spec_parse_server_args(va) == server_scan(va, i as int, cfg@),
        decreases args.len() - i,
    {
        match server_step_exec(args, i, &mut cfg) {
            Ok(Some(two)) => {
                i = if two { i + 2 } else { i + 1 };
            },
            Ok(None) => {
                return Ok(ServerArgs::Help);
            },
            Err(e) => {
                return Err(e);
            },
        }
    }
    Ok(ServerArgs::Run(cfg))
}

/// The `authorized_keys` file the gateway reads: the configured one, or
/// the default below the home directory.
pub open spec fn spec_authorized_keys_path(c: ServerConfigView, home: Option<Seq<char>>) -> Seq<char> {
    match c.authorized_keys {
        Some(p) => p,
        None => join_path(spec_ssh_dir(home), "authorized_keys"@),
    }
}

/// The `authorized_keys` file the gateway reads.
pub fn authorized_keys_path(config: &WsServerConfig, home: Option<&str>) -> (r: String)
    ensures
        r@ == spec_authorized_keys_path(config@, opt_str_view(home)),
{
    match &config.authorized_keys {
        Some(p) => p.clone(),
        None => default_authorized_keys(home),
    }
}

/// How a trial bind of the listening port went.
#[derive(Debug, Clone)]
pub enum PortProbe {
    /// The port could be bound.
    Free,
    /// The port is taken by another process.
    InUse,
    /// Binding the port is not permitted.
    Denied,
    /// Binding failed otherwise; the error's text.
    Failed(String),
}

/// What is found at the `authorized_keys` path.
#[derive(Debug, Clone)]
pub enum KeysFileState {
    /// Nothing exists there.
    Missing,
    /// Its metadata could not be read; the error's text.
    Unreadable(String),
    /// A file of this many bytes.
    Size(u64),
}

/// Why the gateway refuses to start.
#[derive(Debug, Clone, Copy, PartialEq, Eq, Structural)]
pub enum PreflightErrorKind {
    InvalidPort,
    PortInUse,
    PortDenied,
    PortProbe,
    CertWithoutTls,
    CertMissing,
    KeyMissing,
    AuthorizedKeysMissing,
    AuthorizedKeysUnreadable,
    AuthorizedKeysEmpty,
}

/// A refusal to start, with its message.
#[derive(Debug, Clone)]
pub struct PreflightError {
    pub kind: PreflightErrorKind,
    pub message: String,
}

/// The outcome of the checks made before the gateway binds: `Ok(true)`
/// when it may start but no authentication is enabled.
pub open spec fn spec_preflight(
    c: ServerConfigView,
    probe: PortProbe,
    cert_exists: bool,
    key_exists: bool,
    keys: KeysFileState,
    home: Option<Seq<char>>,
) -> Result<bool, (PreflightErrorKind, Seq<char>)> {
    let port = decimal(c.port as nat);
    let keys_path = spec_authorized_keys_path(c, home);
    if c.port == 0 {
        Err((PreflightErrorKind::InvalidPort, "invalid --port: must be 1-65535"@))
    } else if probe is InUse {
        Err((PreflightErrorKind::PortInUse, "port "@ + port + " is already in use. Stop the existing process or pass --port <other>."@))
    } else if probe is Denied {
        Err((PreflightErrorKind::PortDenied, "permission denied binding port "@ + port + ". Ports below 1024 require root; use --port <≥1024>."@))
    } else if probe is Failed {
        Err((PreflightErrorKind::PortProbe, probe->Failed_0@))
    } else if !c.tls && (c.cert_path is Some || c.key_path is Some) {
        Err((PreflightErrorKind::CertWithoutTls, "--cert/--key require --tls"@))
    } else if c.cert_path is Some && c.key_path is Some && !cert_exists {
        Err((PreflightErrorKind::CertMissing, "certificate not found: "@ + c.cert_path->0))
    } else if c.cert_path is Some && c.key_path is Some && !key_exists {
        Err((PreflightErrorKind::KeyMissing, "private key not found: "@ + c.key_path->0))
    } else if c.pubkey_auth && keys is Missing {
        Err((PreflightErrorKind::AuthorizedKeysMissing, "--pubkey-auth: authorized_keys not found at "@ + keys_path
            + ".\n  Create it (with the public key of each allowed client) or pass --authorized-keys <path>."@))
    } else if c.pubkey_auth && keys is Unreadable {
        Err((PreflightErrorKind::AuthorizedKeysUnreadable, keys->Unreadable_0@))
    } else if c.pubkey_auth && keys is Size && keys->Size_0 == 0 {
        Err((PreflightErrorKind::AuthorizedKeysEmpty, "--pubkey-auth: authorized_keys at "@ + keys_path
            + " is empty; no client could authenticate."@))
    } else {
        Ok(c.password is None && !c.pubkey_auth)
    }
}

fn preflight_error(kind: PreflightErrorKind, message: String) -> (r: PreflightError)
    ensures
        r.kind == kind,
        r.message == message,
{
    PreflightError { kind, message }
}

/// Decides whether the gateway may start, from the configuration and what
/// was found on the machine: a trial bind of the port, whether the
/// certificate and key files exist, and what is at the `authorized_keys`
/// path. `Ok(true)` asks for the warning that no authentication is on.
pub fn preflight(
    config: &WsServerConfig,
    probe: &PortProbe,
    cert_exists: bool,
    key_exists: bool,
    keys: &KeysFileState,
    home: Option<&str>,
) -> (r: Result<bool, PreflightError>)
    ensures
        match spec_preflight(config@, *probe, cert_exists, key_exists, *keys, opt_str_view(home)) {
            Ok(w) => r == Ok::<bool, PreflightError>(w),
            Err((k, m)) => r matches Err(e) && e.kind == k && e.message@ == m,
        },
{
    if config.port == 0 {
        return Err(preflight_error(PreflightErrorKind::InvalidPort, owned("invalid --port: must be 1-65535")));
    }
    let port = format_decimal(config.port as u64);
    match probe {
        PortProbe::Free => {},
        PortProbe::InUse => {
            let mut m = owned("port ");
            push_str(&mut m, port.as_str());
            push_str(&mut m, " is already in use. Stop the existing process or pass --port <other>.");
            return Err(preflight_error(PreflightErrorKind::PortInUse, m));
        },
        PortProbe::Denied => {
            let mut m = owned("permission denied binding port ");
            push_str(&mut m, port.as_str());
            push_str(&mut m, ". Ports below 1024 require root; use --port <≥1024>.");
            return Err(preflight_error(PreflightErrorKind::PortDenied, m));
        },
        PortProbe::Failed(e) => {
            return Err(preflight_error(PreflightErrorKind::PortProbe, e.clone()));
        },
    }
    if !config.tls && (config.cert_path.is_some() || config.key_path.is_some()) {
        return Err(preflight_error(PreflightErrorKind::CertWithoutTls, owned("--cert/--key require --tls")));
    }
    match (&config.cert_path, &config.key_path) {
        (Some(cert), Some(key)) => {
            if !cert_exists {
                let mut m = owned("certificate not found: ");
                push_str(&mut m, cert.as_str());
                return Err(preflight_error(PreflightErrorKind::CertMissing, m));
            }
            if !key_exists {
                let mut m = owned("private key not found: ");
                push_str(&mut m, key.as_str());
                return Err(preflight_error(PreflightErrorKind::KeyMissing, m));
            }
        },
        _ => {},
    }
    if config.pubkey_auth {
        let path = authorized_keys_path(config, home);
        match keys {
            KeysFileState::Missing => {
                let mut m = owned("--pubkey-auth: authorized_keys not found at ");
                push_str(&mut m, path.as_str());
                push_str(
                    &mut m,
                    ".\n  Create it (with the public key of each allowed client) or pass --authorized-keys <path>.",
                );
                return Err(preflight_error(PreflightErrorKind::AuthorizedKeysMissing, m));
            },
            KeysFileState::Unreadable(e) => {
                return Err(preflight_error(PreflightErrorKind::AuthorizedKeysUnreadable, e.clone()));
            },
            KeysFileState::Size(n) => {
                if *n == 0 {
                    let mut m = owned("--pubkey-auth: authorized_keys at ");
                    push_str(&mut m, path.as_str());
                    push_str(&mut m, " is empty; no client could authenticate.");
                    return Err(preflight_error(PreflightErrorKind::AuthorizedKeysEmpty, m));
                }
            },
        }
    }
    Ok(config.password.is_none() && !config.pubkey_auth)
}

/// The warning printed when the gateway starts with no authentication.
pub fn no_auth_warning(port: u16) -> (r: String)
    ensures
        r@ == "herdr ws-server: warning: no authentication enabled. Anyone who can reach port "@ + decimal(
            port as nat,
        ) + " will get a herdr session. Pass --password <pw> or --pubkey-auth."@,
{
    let mut m = owned("herdr ws-server: warning: no authentication enabled. Anyone who can reach port ");
    let p = format_decimal(port as u64);
    push_str(&mut m, p.as_str());
    push_str(&mut m, " will get a herdr session. Pass --password <pw> or --pubkey-auth.");
    m
}

/// The lines printed once the gateway listens.
pub open spec fn spec_listening_banner(c: ServerConfigView, home: Option<Seq<char>>) -> Seq<Seq<char>> {
    let scheme = if c.tls { "wss"@ } else { "ws"@ };
    let first = seq!["herdr ws-server listening on "@ + scheme + "://0.0.0.0:"@ + decimal(c.port as nat)];
    let pw = if c.password is Some { seq!["  auth: password"@] } else { Seq::<Seq<char>>::empty() };
    let pk = if c.pubkey_auth {
        seq!["  auth: SSH public key ("@ + spec_authorized_keys_path(c, home) + ")"@]
    } else {
        Seq::<Seq<char>>::empty()
    };
    first + pw + pk
}

/// The lines printed once the gateway listens: the address, then the
/// authentication methods in use.
pub fn listening_banner(config: &WsServerConfig, home: Option<&str>) -> (r: Vec<String>)
    ensures
        views(r@) == spec_listening_banner(config@, opt_str_view(home)),
{
    let mut first = owned("herdr ws-server listening on ");
    push_str(&mut first, if config.tls { "wss" } else { "ws" });
    push_str(&mut first, "://0.0.0.0:");
    let p = format_decimal(config.port as u64);
    push_str(&mut first, p.as_str());
    let mut lines: Vec<String> = Vec::new();
    lines.push(first);
    let ghost l1 = views(lines@);
    if config.password.is_some() {
        lines.push(owned("  auth: password"));
    }
    let ghost l2 = views(lines@);
    if config.pubkey_auth {
        let mut m = owned("  auth: SSH public key (");
        let path = authorized_keys_path(config, home);
        push_str(&mut m, path.as_str());
        push_str(&mut m, ")");
        lines.push(m);
    }
    let ghost c = config@;
    let ghost h = opt_str_view(home);
    assert(views(lines@) =~= spec_listening_banner(c, h));
    lines
}

/// Whether an upgrade request passes the password check: always when no
/// password is set; otherwise its `Authorization` header must be
/// `Bearer <password>` (the scheme's letters in any case) or the bare
/// password.
pub open spec fn spec_password_accepted(expected: Option<Seq<char>>, header: Option<Seq<char>>) -> bool {
    match expected {
        None => true,
        Some(pw) => match header {
            None => false,
            Some(v) => ascii_lowercase(v) == ascii_lowercase("Bearer "@ + pw) || v == pw,
        },
    }
}

/// The password check on an upgrade request, given the expected password
/// and the `Authorization` header as text (`None` when absent or not
/// visible ASCII).
pub fn password_accepted(expected: Option<&str>, header: Option<&str>) -> (r: bool)
    ensures
        r == spec_password_accepted(opt_str_view(expected), opt_str_view(header)),
{
    match expected {
        None => true,
        Some(pw) => match header {
            None => false,
            Some(v) => {
                let mut bearer = owned("Bearer ");
                push_str(&mut bearer, pw);
                let a = to_ascii_lowercase(chars_of(v).as_slice());
                let b = to_ascii_lowercase(chars_of(bearer.as_str()).as_slice());
                crate::text::seq_eq(a.as_slice(), b.as_slice()) || str_eq(v, pw)
            },
        },
    }
}

/// The body of the refusal sent with status 401.
pub const UNAUTHORIZED_BODY: &'static str = "Unauthorized: invalid or missing password";

/// A client that sends the password as `Authorization: Bearer <password>`
/// (the bridge does) or bare is let through; without a password set
/// every request passes.
pub proof fn lemma_bearer_accepted(pw: Seq<char>, header: Option<Seq<char>>)
    ensures
        spec_password_accepted(Some(pw), Some("Bearer "@ + pw)),
        spec_password_accepted(Some(pw), Some(pw)),
        spec_password_accepted(None, header),
        spec_password_accepted(Some(pw), None) == false,
{
}

} // verus!
