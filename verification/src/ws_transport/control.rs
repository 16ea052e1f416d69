//! Starting and stopping the gateway in the background from the Settings
//! screen: the generated password, the PID file, and the command line the
//! subprocess is started with.
use vstd::prelude::*;
use vstd::string::*;

use crate::encoding::{base64_url_safe_no_pad, encode_base64_url_safe_no_pad};
use crate::remote::{join_path, join_path_exec, views};
use crate::ws_transport::server::{port_value, server_scan, server_step, spec_parse_server_args, ServerConfigView};
use crate::ws_transport::Parsed;
use crate::text::{chars_of, decimal, lemma_decimal_digits, lemma_parse_decimal, trim_end, trim_start, format_decimal, owned, parse_bounded, parse_unsigned, push_str, trim, trim_chars};

verus! {

/// Name of the PID file in the session data directory.
pub const PID_FILE: &'static str = "ws-server.pid";

/// Name of the log file in the session data directory.
pub const LOG_FILE: &'static str = "ws-server.log";

/// The password generated for the gateway from random bytes: their
/// URL-safe Base64, without padding.
pub fn password_from_bytes(bytes: &[u8]) -> (r: String)
    ensures
        r@ == base64_url_safe_no_pad(bytes@),
{
    encode_base64_url_safe_no_pad(bytes)
}

/// The PID file below the data directory.
pub fn pid_path(data_dir: &str) -> (r: String)
    ensures
        r@ == join_path(data_dir@, PID_FILE@),
{
    join_path_exec(data_dir, PID_FILE)
}

/// The log file below the data directory.
pub fn log_path(data_dir: &str) -> (r: String)
    ensures
        r@ == join_path(data_dir@, LOG_FILE@),
{
    join_path_exec(data_dir, LOG_FILE)
}

/// The PID a PID file's text records: the trimmed text as a `u32`.
pub open spec fn spec_pid_from_text(raw: Seq<char>) -> Option<u32> {
    match parse_unsigned(trim(raw)) {
        Some(n) => if n <= u32::MAX {
            Some(n as u32)
        } else {
            None
        },
        None => None,
    }
}

/// Reads the PID recorded in a PID file.
pub fn pid_from_text(raw: &str) -> (r: Option<u32>)
    ensures
        r == spec_pid_from_text(raw@),
{
    let cs = chars_of(raw);
    let t = trim_chars(cs.as_slice());
    match parse_bounded(t.as_slice(), 0xffff_ffff) {
        Some(n) => Some(n as u32),
        None => None,
    }
}

/// Why the gateway was not started.
#[derive(Debug, Clone, Copy, PartialEq, Eq, Structural)]
pub enum StartRefusal {
    /// A gateway started earlier is still running.
    AlreadyRunning,
    /// No password is configured.
    PasswordRequired,
}

impl StartRefusal {
    /// The message shown for the refusal.
    pub fn message(&self) -> (r: &'static str)
        ensures
            r@ == match self {
                StartRefusal::AlreadyRunning => "ws-server is already running"@,
                StartRefusal::PasswordRequired => "ws-server requires a password; configure [server] password or enable from Settings"@,
            },
    {
        match self {
            StartRefusal::AlreadyRunning => "ws-server is already running",
            StartRefusal::PasswordRequired => "ws-server requires a password; configure [server] password or enable from Settings",
        }
    }
}

/// Whether a gateway may be started: none may be running, and a password
/// must be configured.
pub fn check_start(running: bool, password: Option<&str>) -> (r: Result<(), StartRefusal>)
    ensures
        running ==> r == Err::<(), StartRefusal>(StartRefusal::AlreadyRunning),
        !running && password is None ==> r == Err::<(), StartRefusal>(StartRefusal::PasswordRequired),
        !running && password is Some ==> r is Ok,
{
    if running {
        Err(StartRefusal::AlreadyRunning)
    } else if password.is_none() {
        Err(StartRefusal::PasswordRequired)
    } else {
        Ok(())
    }
}

/// The arguments the gateway subprocess is started with.
pub open spec fn spec_ws_server_args(port: u16, password: Option<Seq<char>>, tls: bool) -> Seq<Seq<char>> {
    let base = seq!["ws-server"@, "--port"@, decimal(port as nat)];
    let pw = match password {
        Some(p) => seq!["--password"@, p],
        None => Seq::<Seq<char>>::empty(),
    };
    let t = if tls { seq!["--tls"@] } else { Seq::<Seq<char>>::empty() };
    base + pw + t
}

/// The arguments the gateway subprocess is started with.
pub fn ws_server_args(port: u16, password: Option<&str>, tls: bool) -> (r: Vec<String>)
    ensures
        views(r@) == spec_ws_server_args(
            port,
            match password {
                Some(p) => Some(p@),
                None => None,
            },
            tls,
        ),
{
    let mut v: Vec<String> = Vec::new();
    v.push(owned("ws-server"));
    v.push(owned("--port"));
    v.push(format_decimal(port as u64));
    if let Some(pw) = password {
        v.push(owned("--password"));
        v.push(owned(pw));
    }
    if tls {
        v.push(owned("--tls"));
    }
    let ghost pv = match password {
        Some(p) => Some(p@),
        None => None,
    };
    assert(views(v@) =~= spec_ws_server_args(port, pv, tls));
    v
}

/// `Display` for `bool`.
pub open spec fn bool_text(b: bool) -> Seq<char> {
    if b { "true"@ } else { "false"@ }
}

/// The line printed when the gateway subprocess is started.
pub fn spawn_notice(port: u16, tls: bool) -> (r: String)
    ensures
        r@ == "herdr: spawning ws-server (port="@ + decimal(port as nat) + ", tls="@ + bool_text(tls)
            + ", password=configured"@ + (if tls { ", --tls"@ } else { ""@ }) + ")"@,
{
    let mut m = owned("herdr: spawning ws-server (port=");
    let p = format_decimal(port as u64);
    push_str(&mut m, p.as_str());
    push_str(&mut m, ", tls=");
    push_str(&mut m, if tls { "true" } else { "false" });
    push_str(&mut m, ", password=configured");
    push_str(&mut m, if tls { ", --tls" } else { "" });
    push_str(&mut m, ")");
    m
}

/// The gateway started in the background runs with the settings it was
/// started with: its arguments, after the subcommand, parse back to that
/// port, password and TLS choice, and nothing else.
pub proof fn lemma_started_gateway_args(port: u16, password: Option<Seq<char>>, tls: bool)
    ensures
        spec_parse_server_args(spec_ws_server_args(port, password, tls).skip(1)) == Parsed::Config(
            ServerConfigView {
                port,
                password,
                tls,
                cert_path: None,
                key_path: None,
                pubkey_auth: false,
                authorized_keys: None,
            },
        ),
{
    reveal_strlit("--port");
    reveal_strlit("-p");
    reveal_strlit("--port=");
    reveal_strlit("--password");
    reveal_strlit("--password=");
    reveal_strlit("--tls");
    lemma_parse_decimal(port as nat);
    assert(port_value(decimal(port as nat)) == Some(port));
    let args = spec_ws_server_args(port, password, tls).skip(1);
    let c0 = crate::ws_transport::server::initial_server_config();
    let c1 = ServerConfigView { port, ..c0 };
    let c2 = ServerConfigView { password, ..c1 };
    let c3 = ServerConfigView { tls, ..c2 };
    let t = if tls { seq!["--tls"@] } else { Seq::<Seq<char>>::empty() };
    match password {
        Some(p) => {
            assert(args =~= seq!["--port"@, decimal(port as nat), "--password"@, p] + t);
            assert(server_scan(args, 4, c2) == Parsed::Config(c3)) by {
                if tls {
                    assert(server_scan(args, 5, c3) == Parsed::Config(c3));
                }
            }
            assert("--port="@[3] != "--password"@[3]);
            assert(!"--port="@.is_prefix_of("--password"@));
            assert(server_step(args, 2, c1) == crate::ws_transport::ArgStep::Continue(true, c2));
            assert(server_scan(args, 2, c1) == server_scan(args, 4, c2));
        },
        None => {
            assert(args =~= seq!["--port"@, decimal(port as nat)] + t);
            assert(server_scan(args, 2, c1) == Parsed::Config(c3)) by {
                if tls {
                    assert(server_scan(args, 3, c3) == Parsed::Config(c3));
                }
            }
        },
    }
    assert(server_scan(args, 0, c0) == server_scan(args, 2, c1));
}

/// A PID file written with the PID in decimal reads back as that PID.
pub proof fn lemma_pid_round_trip(pid: u32)
    ensures
        spec_pid_from_text(decimal(pid as nat)) == Some(pid),
{
    let d = decimal(pid as nat);
    lemma_decimal_digits(pid as nat);
    lemma_parse_decimal(pid as nat);
    assert(crate::text::is_digit(d[0]));
    assert(crate::text::is_digit(d[d.len() - 1]));
    assert(trim_start(d) == d);
    assert(trim_end(d) == d);
}

} // verus!
