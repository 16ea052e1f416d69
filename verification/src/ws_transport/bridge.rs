//! The local bridge subprocess (`herdr ws-client-bridge <url> [options]`):
//! its command line, and the decisions it takes while connecting.
use vstd::prelude::*;
use vstd::string::*;

use crate::remote::{opt_view, spec_ws_bridge_args, take_value, value_after, views, WsLaunchView};
use crate::text::{contains, owned, push_str, starts_with, str_contains, str_eq, strip_prefix};
use crate::ws_transport::tls::{parse_fingerprint, spec_parse_fingerprint};
use crate::ws_transport::{ArgStep, Parsed};

verus! {

/// Configuration for `herdr ws-client-bridge <url> [options]`.
#[derive(Debug, Clone)]
pub struct WsBridgeConfig {
    /// WebSocket URL: `ws://...` or `wss://...`.
    pub url: String,
    /// Bearer password (`Authorization: Bearer <password>`).
    pub password: Option<String>,
    /// Expected TLS certificate fingerprint, `SHA256:<base64>`.
    pub fingerprint: Option<String>,
    /// SSH private key path for public-key authentication.
    pub identity_file: Option<String>,
}

/// The mathematical content of a [`WsBridgeConfig`].
pub struct BridgeConfigView {
    pub url: Seq<char>,
    pub password: Option<Seq<char>>,
    pub fingerprint: Option<Seq<char>>,
    pub identity_file: Option<Seq<char>>,
}

impl View for WsBridgeConfig {
    type V = BridgeConfigView;

    open spec fn view(&self) -> BridgeConfigView {
        BridgeConfigView {
            url: self.url@,
            password: opt_view(self.password),
            fingerprint: opt_view(self.fingerprint),
            identity_file: opt_view(self.identity_file),
        }
    }
}

/// What a `ws-client-bridge` command line asks for.
#[derive(Debug, Clone)]
pub enum BridgeArgs {
    /// Run the bridge with this configuration.
    Run(WsBridgeConfig),
    /// Print the usage text and exit successfully.
    Help,
}

/// The effect of the option at `i` on the configuration built so far.
pub open spec fn bridge_step(args: Seq<Seq<char>>, i: int, c: BridgeConfigView) -> ArgStep<BridgeConfigView> {
    let a = args[i];
    if a == "--password"@ {
        match value_after(args, i, "--password"@) {
            Err(e) => ArgStep::Fail(e),
            Ok(v) => ArgStep::Continue(true, BridgeConfigView { password: Some(v), ..c }),
        }
    } else if "--password="@.is_prefix_of(a) {
        ArgStep::Continue(false, BridgeConfigView { password: Some(a.skip("--password="@.len() as int)), ..c })
    } else if a == "--fingerprint"@ {
        match value_after(args, i, "--fingerprint"@) {
            Err(e) => ArgStep::Fail(e),
            Ok(v) => ArgStep::Continue(true, BridgeConfigView { fingerprint: Some(v), ..c }),
        }
    } else if "--fingerprint="@.is_prefix_of(a) {
        ArgStep::Continue(false, BridgeConfigView { fingerprint: Some(a.skip("--fingerprint="@.len() as int)), ..c })
    } else if a == "--identity"@ || a == "-i"@ {
        match value_after(args, i, "--identity"@) {
            Err(e) => ArgStep::Fail(e),
            Ok(v) => ArgStep::Continue(true, BridgeConfigView { identity_file: Some(v), ..c }),
        }
    } else if a == "--pubkey-auth"@ {
        ArgStep::Continue(false, c)
    } else if a == "--help"@ || a == "-h"@ {
        ArgStep::Help
    } else {
        ArgStep::Fail("unknown option: "@ + a)
    }
}

/// The options from index `i` on, applied in order.
pub open spec fn bridge_scan(args: Seq<Seq<char>>, i: int, c: BridgeConfigView) -> Parsed<BridgeConfigView>
    decreases args.len() - i,
{
    if i < 0 || i >= args.len() {
        Parsed::Config(c)
    } else {
        match bridge_step(args, i, c) {
            ArgStep::Fail(e) => Parsed::Error(e),
            ArgStep::Help => Parsed::Help,
            ArgStep::Continue(two, next) => bridge_scan(args, i + 1 + (if two { 1int } else { 0int }), next),
        }
    }
}

/// What a `ws-client-bridge` command line asks for: the URL first, then
/// the options.
pub open spec fn spec_parse_bridge_args(args: Seq<Seq<char>>) -> Parsed<BridgeConfigView> {
    if args.len() == 0 {
        Parsed::Error("ws-client-bridge requires a URL argument"@)
    } else {
        bridge_scan(
            args,
            1,
            BridgeConfigView { url: args[0], password: None, fingerprint: None, identity_file: None },
        )
    }
}

/// Applies the option at `i`: `Ok(Some(two))` to go on (`two` when the
/// following argument was consumed too), `Ok(None)` for the help.
fn bridge_step_exec(args: &[String], i: usize, cfg: &mut WsBridgeConfig) -> (r: Result<Option<bool>, String>)
    requires
        i < args@.len(),
    ensures
        match bridge_step(views(args@), i as int, old(cfg)@) {
            ArgStep::Continue(two, next) => r == Ok::<Option<bool>, String>(Some(two)) && final(cfg)@ == next,
            ArgStep::Help => r == Ok::<Option<bool>, String>(None),
            ArgStep::Fail(e) => r matches Err(x) && x@ == e,
        },
{
    let ghost va = views(args@);
    let a: &str = args[i].as_str();
    assert(va[i as int] == a@);
    if str_eq(a, "--password") {
        let v = take_value(args, i, "--password")?;
        cfg.password = Some(v);
        return Ok(Some(true));
    }
    if let Some(v) = strip_prefix(a, "--password=") {
        cfg.password = Some(v);
        return Ok(Some(false));
    }
    if str_eq(a, "--fingerprint") {
        let v = take_value(args, i, "--fingerprint")?;
        cfg.fingerprint = Some(v);
        return Ok(Some(true));
    }
    if let Some(v) = strip_prefix(a, "--fingerprint=") {
        cfg.fingerprint = Some(v);
        return Ok(Some(false));
    }
    if str_eq(a, "--identity") || str_eq(a, "-i") {
        let v = take_value(args, i, "--identity")?;
        cfg.identity_file = Some(v);
        return Ok(Some(true));
    }
    if str_eq(a, "--pubkey-auth") {
        return Ok(Some(false));
    }
    if str_eq(a, "--help") || str_eq(a, "-h") {
        return Ok(None);
    }
    let mut m = owned("unknown option: ");
    push_str(&mut m, a);
    Err(m)
}

/// Parses the arguments of `herdr ws-client-bridge <url> [options]`.
pub fn parse_args(args: &[String]) -> (r: Result<BridgeArgs, String>)
    ensures
        match spec_parse_bridge_args(views(args@)) {
            Parsed::Config(c) => r matches Ok(BridgeArgs::Run(x)) && x@ == c,
            Parsed::Help => r matches Ok(BridgeArgs::Help),
            Parsed::Error(e) => r matches Err(x) && x@ == e,
        },
{
    let ghost va = views(args@);
    if args.len() == 0 {
        return Err(owned("ws-client-bridge requires a URL argument"));
    }
    let mut cfg = WsBridgeConfig { url: args[0].clone(), password: None, fingerprint: None, identity_file: None };
    assert(cfg@ == BridgeConfigView { url: va[0], password: None, fingerprint: None, identity_file: None });
    let mut i: usize = 1;
    while i < args.len()
        invariant
            1 <= i,
            va == views(args@),
            va.len() > 0,
            spec_parse_bridge_args(va) == bridge_scan(va, i as int, cfg@),
        decreases args.len() - i,
    {
        match bridge_step_exec(args, i, &mut cfg) {
            Ok(Some(two)) => {
                i = if two { i + 2 } else { i + 1 };
            },
            Ok(None) => {
                return Ok(BridgeArgs::Help);
            },
            Err(e) => {
                return Err(e);
            },
        }
    }
    Ok(BridgeArgs::Run(cfg))
}

/// Whether the URL asks for TLS: `wss://` or `https://`.
pub open spec fn spec_is_tls_url(url: Seq<char>) -> bool {
    "wss://"@.is_prefix_of(url) || "https://"@.is_prefix_of(url)
}

/// Whether the bridge connects over TLS.
pub fn is_tls_url(url: &str) -> (r: bool)
    ensures
        r == spec_is_tls_url(url@),
{
    starts_with(url, "wss://") || starts_with(url, "https://")
}

/// The value of the `Authorization` header for a password.
pub fn bearer_value(password: &str) -> (r: String)
    ensures
        r@ == "Bearer "@ + password@,
{
    let mut v = owned("Bearer ");
    push_str(&mut v, password);
    v
}

/// The error for a `wss://` URL given without a fingerprint to pin.
pub open spec fn msg_fingerprint_required() -> Seq<char> {
    "wss:// requires --fingerprint (SHA256:... from server Settings or ws-server.log); self-signed TLS cannot use system certificate roots"@
}

/// The certificate digest a TLS connection pins: the configured
/// fingerprint, which `wss://` cannot do without.
pub fn pinned_fingerprint(config: &WsBridgeConfig) -> (r: Result<[u8; 32], String>)
    ensures
        match config.fingerprint {
            None => r matches Err(m) && m@ == msg_fingerprint_required(),
            Some(fp) => match spec_parse_fingerprint(fp@) {
                Ok(bytes) => r matches Ok(a) && a@ == bytes,
                Err(_) => r is Err,
            },
        },
{
    match &config.fingerprint {
        None => Err(owned(
            "wss:// requires --fingerprint (SHA256:... from server Settings or ws-server.log); self-signed TLS cannot use system certificate roots",
        )),
        Some(fp) => parse_fingerprint(fp.as_str()),
    }
}

/// The address a TLS connection dials: the URL's host and its port, 443
/// when the URL names none.
pub fn connect_address(host: &str, port: Option<u16>) -> (r: String)
    ensures
        r@ == host@ + ":"@ + crate::text::decimal(
            match port {
                Some(p) => p as nat,
                None => 443,
            },
        ),
{
    let p: u16 = match port {
        Some(p) => p,
        None => 443,
    };
    let mut a = owned(host);
    push_str(&mut a, ":");
    let d = crate::text::format_decimal(p as u64);
    push_str(&mut a, d.as_str());
    a
}

/// The hint added to a failed TLS handshake's message.
pub open spec fn spec_tls_handshake_hint(msg: Seq<char>) -> Seq<char> {
    if contains(msg, "InvalidContentType"@) || contains(msg, "UnexpectedMessage"@) {
        ". The server may be listening with ws:// (no --tls) while you used wss://; confirm ws-server.log shows `listening on wss://` and `auth: password`"@
    } else if contains(msg, "fingerprint mismatch"@) {
        ". Re-copy --fingerprint from the server after restarting ws-server"@
    } else {
        ""@
    }
}

/// The message for a failed TLS handshake to `addr`, with a hint at the
/// likely cause.
pub fn tls_handshake_error(addr: &str, msg: &str) -> (r: String)
    ensures
        r@ == "TLS handshake to "@ + addr@ + " failed: "@ + msg@ + spec_tls_handshake_hint(msg@),
{
    let mut m = owned("TLS handshake to ");
    push_str(&mut m, addr);
    push_str(&mut m, " failed: ");
    push_str(&mut m, msg);
    if str_contains(msg, "InvalidContentType") || str_contains(msg, "UnexpectedMessage") {
        push_str(
            &mut m,
            ". The server may be listening with ws:// (no --tls) while you used wss://; confirm ws-server.log shows `listening on wss://` and `auth: password`",
        );
    } else if str_contains(msg, "fingerprint mismatch") {
        push_str(&mut m, ". Re-copy --fingerprint from the server after restarting ws-server");
    } else {
        proof {
            reveal_strlit("");
        }
        assert(m@ =~= m@ + ""@);
    }
    m
}

/// The identity file public-key authentication uses: the configured one,
/// which must exist, or else the first default that exists. Each path is
/// given with whether it exists.
pub fn resolve_identity(configured: Option<&str>, configured_exists: bool, defaults: &[(String, bool)]) -> (r: Result<String, String>)
    ensures
        match configured {
            Some(p) => if configured_exists {
                r matches Ok(x) && x@ == p@
            } else {
                r matches Err(m) && m@ == "identity file not found: "@ + p@
            },
            None => match r {
                Ok(x) => exists|i: int|
                    0 <= i < defaults@.len() && #[trigger] defaults@[i].1 && x@ == defaults@[i].0@ && forall|j: int| 0 <= j < i ==> !defaults@[j].1,
                Err(m) => m@ == "no SSH private key found; use --ws-identity to specify one"@ && forall|i: int|
                    0 <= i < defaults@.len() ==> !(#[trigger] defaults@[i].1),
            },
        },
{
    match configured {
        Some(p) => {
            if configured_exists {
                Ok(owned(p))
            } else {
                let mut m = owned("identity file not found: ");
                push_str(&mut m, p);
                Err(m)
            }
        },
        None => {
            let mut i: usize = 0;
            while i < defaults.len()
                invariant
                    configured is None,
                    i <= defaults@.len(),
                    forall|j: int| 0 <= j < i ==> !(#[trigger] defaults@[j].1),
                decreases defaults@.len() - i,
            {
                if defaults[i].1 {
                    let x = defaults[i].0.clone();
                    assert(defaults@[i as int].1 && x@ == defaults@[i as int].0@ && forall|j: int|
                        0 <= j < i ==> !defaults@[j].1);
                    return Ok(x);
                }
                i = i + 1;
            }
            Err(owned("no SSH private key found; use --ws-identity to specify one"))
        },
    }
}

/// The bridge subprocess started for a WebSocket remote gets the launch's
/// settings: its arguments, after the subcommand, parse back to the URL,
/// the password, the fingerprint and the identity file.
pub proof fn lemma_bridge_args_round_trip(url: Seq<char>, ws: WsLaunchView)
    ensures
        spec_parse_bridge_args(spec_ws_bridge_args(url, ws).skip(1)) == Parsed::Config(
            BridgeConfigView {
                url,
                password: ws.password,
                fingerprint: ws.fingerprint,
                identity_file: ws.identity_file,
            },
        ),
{
    reveal_strlit("--password");
    reveal_strlit("--password=");
    reveal_strlit("--fingerprint");
    reveal_strlit("--fingerprint=");
    reveal_strlit("--identity");
    reveal_strlit("-i");
    reveal_strlit("--pubkey-auth");
    reveal_strlit("--help");
    reveal_strlit("-h");
    let pw = match ws.password { Some(p) => seq!["--password"@, p], None => Seq::<Seq<char>>::empty() };
    let fp = match ws.fingerprint { Some(f) => seq!["--fingerprint"@, f], None => Seq::<Seq<char>>::empty() };
    let pk = if ws.pubkey_auth { seq!["--pubkey-auth"@] } else { Seq::<Seq<char>>::empty() };
    let id = match ws.identity_file { Some(i) => seq!["--identity"@, i], None => Seq::<Seq<char>>::empty() };
    let args = spec_ws_bridge_args(url, ws).skip(1);
    assert(args =~= seq![url] + pw + fp + pk + id);
    let c0 = BridgeConfigView { url, password: None, fingerprint: None, identity_file: None };
    let c1 = BridgeConfigView { password: ws.password, ..c0 };
    let c2 = BridgeConfigView { fingerprint: ws.fingerprint, ..c1 };
    let c3 = BridgeConfigView { identity_file: ws.identity_file, ..c2 };
    let i1: int = 1 + pw.len() as int;
    let i2: int = i1 + fp.len();
    let i3: int = i2 + pk.len();
    assert("--password="@[2] != "--fingerprint"@[2]);
    assert("--password="@[3] != "--pubkey-auth"@[3]);
    assert("--password="@[2] != "--identity"@[2]);
    assert("--fingerprint="@[2] != "--pubkey-auth"@[2]);
    assert("--fingerprint="@[2] != "--identity"@[2]);
    assert(!"--password="@.is_prefix_of("--fingerprint"@));
    assert(!"--password="@.is_prefix_of("--pubkey-auth"@));
    assert(!"--password="@.is_prefix_of("--identity"@));
    assert(!"--fingerprint="@.is_prefix_of("--pubkey-auth"@));
    assert(!"--fingerprint="@.is_prefix_of("--identity"@));
    assert(bridge_scan(args, i3, c2) == Parsed::Config(c3)) by {
        if ws.identity_file is Some {
            assert(args[i3] == "--identity"@);
            assert(bridge_step(args, i3, c2) == ArgStep::Continue(true, c3));
            assert(bridge_scan(args, i3 + 2, c3) == Parsed::Config(c3));
        }
    }
    assert(bridge_scan(args, i2, c2) == bridge_scan(args, i3, c2)) by {
        if ws.pubkey_auth {
            assert(args[i2] == "--pubkey-auth"@);
            assert(bridge_step(args, i2, c2) == ArgStep::Continue(false, c2));
        }
    }
    assert(bridge_scan(args, i1, c1) == bridge_scan(args, i2, c2)) by {
        if ws.fingerprint is Some {
            assert(args[i1] == "--fingerprint"@);
            assert(bridge_step(args, i1, c1) == ArgStep::Continue(true, c2));
        }
    }
    assert(bridge_scan(args, 1, c0) == bridge_scan(args, i1, c1)) by {
        if ws.password is Some {
            assert(args[1] == "--password"@);
            assert(bridge_step(args, 1, c0) == ArgStep::Continue(true, c1));
        }
    }
}

} // verus!
