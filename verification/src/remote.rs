//! Remote thin-client launching: command-line handling, the shell commands
//! sent over SSH, and the names of the local bridge sockets.
pub mod setup;

use vstd::prelude::*;
use vstd::string::*;
use vstd::utf8::{encode_utf8, is_ascii_chars, is_ascii_chars_encode_utf8};
use std::collections::hash_map::DefaultHasher;
use std::hash::Hasher;
use vstd::std_specs::hash::DefaultHasherAdditionalSpecFns;

use crate::session::{CURRENT_VERSION, DEFAULT_SESSION_NAME};
use crate::text::{
    lemma_decimal_digits, utf8_len_at_most,
    ascii_lowercase, line_or_empty, line_or_empty_exec, to_ascii_lowercase, chars_of, decimal, format_decimal, is_alnum, string_of_range, next_line, owned, push_char, push_str, seq_eq, split_line, starts_with,
    str_eq, string_of, strip_prefix, trim, trim_chars, trim_str,
};

verus! {

/// The views of a list of strings.
pub open spec fn views(args: Seq<String>) -> Seq<Seq<char>> {
    args.map_values(|s: String| s@)
}

/// The view of an optional string.
pub open spec fn opt_view(o: Option<String>) -> Option<Seq<char>> {
    match o {
        Some(s) => Some(s@),
        None => None,
    }
}

/// `--remote <target>` as given on the command line.
#[derive(Debug, Clone)]
pub struct RemoteLaunch {
    /// SSH target (e.g. `user@host`) or WebSocket URL (e.g. `ws://host:8080`).
    pub target: String,
    /// Present when `--remote` was given a WebSocket URL.
    pub ws: Option<WsLaunchConfig>,
}

/// Extra flags that apply only when `--remote` is a WebSocket URL.
#[derive(Debug, Clone)]
pub struct WsLaunchConfig {
    /// Bearer password (`--password`).
    pub password: Option<String>,
    /// Expected TLS cert fingerprint (`--fingerprint`).
    pub fingerprint: Option<String>,
    /// Use SSH public-key challenge-response (`--ws-pubkey-auth`).
    pub pubkey_auth: bool,
    /// SSH private key path (`--ws-identity`).
    pub identity_file: Option<String>,
}

/// The mathematical content of a [`WsLaunchConfig`].
pub struct WsLaunchView {
    pub password: Option<Seq<char>>,
    pub fingerprint: Option<Seq<char>>,
    pub pubkey_auth: bool,
    pub identity_file: Option<Seq<char>>,
}

/// The mathematical content of a [`RemoteLaunch`].
pub struct RemoteLaunchView {
    pub target: Seq<char>,
    pub ws: Option<WsLaunchView>,
}

impl View for WsLaunchConfig {
    type V = WsLaunchView;

    open spec fn view(&self) -> WsLaunchView {
        WsLaunchView {
            password: opt_view(self.password),
            fingerprint: opt_view(self.fingerprint),
            pubkey_auth: self.pubkey_auth,
            identity_file: opt_view(self.identity_file),
        }
    }
}

impl View for RemoteLaunch {
    type V = RemoteLaunchView;

    open spec fn view(&self) -> RemoteLaunchView {
        RemoteLaunchView {
            target: self.target@,
            ws: match self.ws {
                Some(w) => Some(w@),
                None => None,
            },
        }
    }
}

impl WsLaunchConfig {
    /// No WebSocket flag given.
    pub fn empty() -> (r: Self)
        ensures
            r@ == WsLaunchView::empty(),
    {
        WsLaunchConfig { password: None, fingerprint: None, pubkey_auth: false, identity_file: None }
    }
}

impl WsLaunchView {
    pub open spec fn empty() -> WsLaunchView {
        WsLaunchView { password: None, fingerprint: None, pubkey_auth: false, identity_file: None }
    }
}

/// Whether a `--remote` target names a WebSocket (or HTTP) endpoint.
pub open spec fn spec_is_ws_target(t: Seq<char>) -> bool {
    ||| "ws://"@.is_prefix_of(t)
    ||| "wss://"@.is_prefix_of(t)
    ||| "http://"@.is_prefix_of(t)
    ||| "https://"@.is_prefix_of(t)
}

/// Returns true when the target string is a WebSocket / HTTP URL.
pub fn is_ws_target(target: &str) -> (r: bool)
    ensures
        r == spec_is_ws_target(target@),
{
    starts_with(target, "ws://") || starts_with(target, "wss://") || starts_with(target, "http://")
        || starts_with(target, "https://")
}

/// `http://` becomes `ws://` and `https://` becomes `wss://`; other targets
/// are kept.
pub open spec fn spec_normalize_ws_url(t: Seq<char>) -> Seq<char> {
    if "http://"@.is_prefix_of(t) {
        "ws://"@ + t.skip("http://"@.len() as int)
    } else if "https://"@.is_prefix_of(t) {
        "wss://"@ + t.skip("https://"@.len() as int)
    } else {
        t
    }
}

/// Normalize `http://` to `ws://` and `https://` to `wss://`.
pub fn normalize_ws_url(target: &str) -> (r: String)
    ensures
        r@ == spec_normalize_ws_url(target@),
{
    if let Some(rest) = strip_prefix(target, "http://") {
        let mut s = owned("ws://");
        push_str(&mut s, rest.as_str());
        return s;
    }
    if let Some(rest) = strip_prefix(target, "https://") {
        let mut s = owned("wss://");
        push_str(&mut s, rest.as_str());
        return s;
    }
    owned(target)
}

/// The message for a `--remote` without a usable value.
pub open spec fn msg_missing_remote() -> Seq<char> {
    "missing value for --remote"@
}

/// The message for a second `--remote`.
pub open spec fn msg_duplicate_remote() -> Seq<char> {
    "--remote can only be specified once"@
}

/// The message for a target that reads like an option.
pub open spec fn msg_dash_remote() -> Seq<char> {
    "--remote target must not start with '-'"@
}

/// A target is refused when empty or when it starts with `-` (it would be
/// read as an option by `ssh`).
pub open spec fn spec_validate_remote_target(t: Seq<char>) -> Result<Seq<char>, Seq<char>> {
    if t.len() == 0 {
        Err(msg_missing_remote())
    } else if t[0] == '-' {
        Err(msg_dash_remote())
    } else {
        Ok(t)
    }
}

/// Refuses empty targets and targets that start with `-`.
pub fn validate_remote_target(target: &str) -> (r: Result<&str, String>)
    ensures
        match spec_validate_remote_target(target@) {
            Ok(t) => r matches Ok(x) && x@ == t,
            Err(e) => r matches Err(x) && x@ == e,
        },
{
    let cs = chars_of(target);
    if cs.len() == 0 {
        return Err(owned("missing value for --remote"));
    }
    if cs[0] == '-' {
        return Err(owned("--remote target must not start with '-'"));
    }
    Ok(target)
}

/// The state of the `--remote` scan after some arguments.
pub struct ScanState {
    /// Arguments kept for the local client.
    pub cleaned: Seq<Seq<char>>,
    /// The (validated, normalized) target, once seen.
    pub remote: Option<Seq<char>>,
    /// WebSocket flags seen so far.
    pub ws: WsLaunchView,
}

/// The value following the option at `i`, or the error naming `flag`.
pub open spec fn value_after(args: Seq<Seq<char>>, i: int, flag: Seq<char>) -> Result<Seq<char>, Seq<char>> {
    if i + 1 < args.len() {
        Ok(args[i + 1])
    } else {
        Err(flag + " requires a value"@)
    }
}

/// The effect of the argument at `i`: whether it also consumed the next
/// argument, and the new state; or the error that ends the scan.
pub open spec fn scan_step(args: Seq<Seq<char>>, i: int, st: ScanState) -> Result<(bool, ScanState), Seq<char>> {
    let a = args[i];
    let ws = st.ws;
    if a == "--remote"@ {
        if st.remote is Some {
            Err(msg_duplicate_remote())
        } else if i + 1 >= args.len() {
            Err(msg_missing_remote())
        } else {
            match spec_validate_remote_target(args[i + 1]) {
                Err(e) => Err(e),
                Ok(t) => Ok((true, ScanState { remote: Some(spec_normalize_ws_url(t)), ..st })),
            }
        }
    } else if "--remote="@.is_prefix_of(a) {
        if st.remote is Some {
            Err(msg_duplicate_remote())
        } else {
            match spec_validate_remote_target(a.skip("--remote="@.len() as int)) {
                Err(e) => Err(e),
                Ok(t) => Ok((false, ScanState { remote: Some(spec_normalize_ws_url(t)), ..st })),
            }
        }
    } else if a == "--password"@ || a == "--ws-password"@ {
        match value_after(args, i, a) {
            Err(e) => Err(e),
            Ok(v) => Ok((true, ScanState { ws: WsLaunchView { password: Some(v), ..ws }, ..st })),
        }
    } else if "--password="@.is_prefix_of(a) {
        Ok((false, ScanState { ws: WsLaunchView { password: Some(a.skip("--password="@.len() as int)), ..ws }, ..st }))
    } else if "--ws-password="@.is_prefix_of(a) {
        Ok((false, ScanState { ws: WsLaunchView { password: Some(a.skip("--ws-password="@.len() as int)), ..ws }, ..st }))
    } else if a == "--fingerprint"@ || a == "--ws-fingerprint"@ {
        match value_after(args, i, a) {
            Err(e) => Err(e),
            Ok(v) => Ok((true, ScanState { ws: WsLaunchView { fingerprint: Some(v), ..ws }, ..st })),
        }
    } else if "--fingerprint="@.is_prefix_of(a) {
        Ok((false, ScanState { ws: WsLaunchView { fingerprint: Some(a.skip("--fingerprint="@.len() as int)), ..ws }, ..st }))
    } else if "--ws-fingerprint="@.is_prefix_of(a) {
        Ok((false, ScanState { ws: WsLaunchView { fingerprint: Some(a.skip("--ws-fingerprint="@.len() as int)), ..ws }, ..st }))
    } else if a == "--ws-pubkey-auth"@ {
        Ok((false, ScanState { ws: WsLaunchView { pubkey_auth: true, ..ws }, ..st }))
    } else if a == "--ws-identity"@ {
        match value_after(args, i, a) {
            Err(e) => Err(e),
            Ok(v) => Ok((true, ScanState { ws: WsLaunchView { identity_file: Some(v), ..ws }, ..st })),
        }
    } else if "--ws-identity="@.is_prefix_of(a) {
        Ok((false, ScanState { ws: WsLaunchView { identity_file: Some(a.skip("--ws-identity="@.len() as int)), ..ws }, ..st }))
    } else {
        Ok((false, ScanState { cleaned: st.cleaned.push(a), ..st }))
    }
}

/// Scans the arguments from index `i` on.
pub open spec fn scan_args(args: Seq<Seq<char>>, i: int, st: ScanState) -> Result<ScanState, Seq<char>>
    decreases args.len() - i,
{
    if i < 0 || i >= args.len() {
        Ok(st)
    } else {
        match scan_step(args, i, st) {
            Err(e) => Err(e),
            Ok((two, next)) => scan_args(args, i + 1 + (if two { 1int } else { 0int }), next),
        }
    }
}

/// What `extract_remote_args` answers for an argument list: the arguments
/// left for the local client (the program name first) and the remote
/// launch, if any; or the message of the first error.
pub open spec fn spec_extract_remote_args(args: Seq<Seq<char>>) -> Result<(Seq<Seq<char>>, Option<RemoteLaunchView>), Seq<char>> {
    let init = ScanState {
        cleaned: if args.len() > 0 { seq![args[0]] } else { seq![] },
        remote: None,
        ws: WsLaunchView::empty(),
    };
    match scan_args(args, 1, init) {
        Err(e) => Err(e),
        Ok(st) => Ok((st.cleaned, match st.remote {
            None => None,
            Some(t) => Some(RemoteLaunchView {
                target: t,
                ws: if spec_is_ws_target(t) { Some(st.ws) } else { None },
            }),
        })),
    }
}

/// The value following the option at `i`.
pub(crate) fn take_value(args: &[String], i: usize, flag: &str) -> (r: Result<String, String>)
    requires
        i < args@.len(),
    ensures
        match value_after(views(args@), i as int, flag@) {
            Ok(v) => r matches Ok(x) && x@ == v,
            Err(e) => r matches Err(x) && x@ == e,
        },
{
    if args.len() - i > 1 {
        Ok(args[i + 1].clone())
    } else {
        let mut m = owned(flag);
        push_str(&mut m, " requires a value");
        Err(m)
    }
}

/// The exec form of [`ScanState`].
struct Scan {
    cleaned: Vec<String>,
    remote: Option<String>,
    ws: WsLaunchConfig,
}

impl Scan {
    spec fn state(&self) -> ScanState {
        ScanState { cleaned: views(self.cleaned@), remote: opt_view(self.remote), ws: self.ws@ }
    }
}

/// One step of the scan, on the argument at `i`.
fn step_args(args: &[String], i: usize, sc: &mut Scan) -> (r: Result<bool, String>)
    requires
        i < args@.len(),
    ensures
        match scan_step(views(args@), i as int, old(sc).state()) {
            Ok((two, next)) => r == Ok::<bool, String>(two) && final(sc).state() == next,
            Err(e) => r matches Err(x) && x@ == e,
        },
{
    let ghost va = views(args@);
    let a: &str = args[i].as_str();
    assert(va[i as int] == a@);
    if str_eq(a, "--remote") {
        if sc.remote.is_some() {
            return Err(owned("--remote can only be specified once"));
        }
        if i + 1 >= args.len() {
            return Err(owned("missing value for --remote"));
        }
        assert(va[i + 1] == args@[i + 1]@);
        let target = validate_remote_target(args[i + 1].as_str())?;
        sc.remote = Some(normalize_ws_url(target));
        return Ok(true);
    }
    if let Some(v) = strip_prefix(a, "--remote=") {
        if sc.remote.is_some() {
            return Err(owned("--remote can only be specified once"));
        }
        let target = validate_remote_target(v.as_str())?;
        sc.remote = Some(normalize_ws_url(target));
        return Ok(false);
    }
    if str_eq(a, "--password") || str_eq(a, "--ws-password") {
        let v = take_value(args, i, a)?;
        sc.ws.password = Some(v);
        return Ok(true);
    }
    if let Some(v) = strip_prefix(a, "--password=") {
        sc.ws.password = Some(v);
        return Ok(false);
    }
    if let Some(v) = strip_prefix(a, "--ws-password=") {
        sc.ws.password = Some(v);
        return Ok(false);
    }
    if str_eq(a, "--fingerprint") || str_eq(a, "--ws-fingerprint") {
        let v = take_value(args, i, a)?;
        sc.ws.fingerprint = Some(v);
        return Ok(true);
    }
    if let Some(v) = strip_prefix(a, "--fingerprint=") {
        sc.ws.fingerprint = Some(v);
        return Ok(false);
    }
    if let Some(v) = strip_prefix(a, "--ws-fingerprint=") {
        sc.ws.fingerprint = Some(v);
        return Ok(false);
    }
    if str_eq(a, "--ws-pubkey-auth") {
        sc.ws.pubkey_auth = true;
        return Ok(false);
    }
    if str_eq(a, "--ws-identity") {
        let v = take_value(args, i, a)?;
        sc.ws.identity_file = Some(v);
        return Ok(true);
    }
    if let Some(v) = strip_prefix(a, "--ws-identity=") {
        sc.ws.identity_file = Some(v);
        return Ok(false);
    }
    let ghost old_cleaned = sc.cleaned@;
    sc.cleaned.push(args[i].clone());
    assert(views(sc.cleaned@) =~= views(old_cleaned).push(a@));
    Ok(false)
}

/// Splits `--remote` and the WebSocket flags off the command line.
///
/// Returns the arguments left for the local client and, when `--remote`
/// was given, the launch it asks for; the WebSocket flags are attached only
/// when the target is a WebSocket URL.
pub fn extract_remote_args(args: &[String]) -> (r: Result<(Vec<String>, Option<RemoteLaunch>), String>)
    ensures
        match spec_extract_remote_args(views(args@)) {
            Ok((cleaned, launch)) => r matches Ok((c, l)) && views(c@) == cleaned && match l {
                Some(x) => launch == Some(x@),
                None => launch is None,
            },
            Err(e) => r matches Err(x) && x@ == e,
        },
{
    let ghost va = views(args@);
    let mut sc = Scan { cleaned: Vec::new(), remote: None, ws: WsLaunchConfig::empty() };
    if args.len() > 0 {
        sc.cleaned.push(args[0].clone());
    }
    let ghost init = ScanState {
        cleaned: if va.len() > 0 { seq![va[0]] } else { seq![] },
        remote: None,
        ws: WsLaunchView::empty(),
    };
    assert(sc.state().cleaned =~= init.cleaned);
    let mut i: usize = 1;
    while i < args.len()
        invariant
            1 <= i,
            va == views(args@),
            init == (ScanState {
                cleaned: if va.len() > 0 { seq![va[0]] } else { seq![] },
                remote: None,
                ws: WsLaunchView::empty(),
            }),
            scan_args(va, 1, init) == scan_args(va, i as int, sc.state()),
        decreases args.len() - i,
    {
        let ghost before = sc.state();
        let two = match step_args(args, i, &mut sc) {
            Ok(two) => two,
            Err(e) => {
                assert(scan_args(va, i as int, before) == Err::<ScanState, Seq<char>>(e@));
                return Err(e);
            },
        };
        i = if two { i + 2 } else { i + 1 };
    }
    let remote = match sc.remote {
        None => None,
        Some(t) => {
            let ws = if is_ws_target(t.as_str()) { Some(sc.ws) } else { None };
            Some(RemoteLaunch { target: t, ws })
        }
    };
    Ok((sc.cleaned, remote))
}

/// Characters that `shell_quote` leaves unquoted.
pub open spec fn is_shell_safe(c: char) -> bool {
    ||| is_alnum(c)
    ||| c == '@' || c == '%' || c == '_' || c == '+' || c == '='
    ||| c == ':' || c == ',' || c == '.' || c == '/' || c == '-'
}

/// `value` with every `'` written as `'\''`.
pub open spec fn escape_quotes(v: Seq<char>) -> Seq<char>
    decreases v.len(),
{
    if v.len() == 0 {
        Seq::<char>::empty()
    } else {
        escape_quotes(v.drop_last()) + (if v.last() == '\'' {
            "'\\''"@
        } else {
            seq![v.last()]
        })
    }
}

/// POSIX shell quoting: a non-empty word of safe characters stays as it is;
/// anything else is wrapped in single quotes.
pub open spec fn spec_shell_quote(v: Seq<char>) -> Seq<char> {
    if v.len() > 0 && (forall|i: int| 0 <= i < v.len() ==> is_shell_safe(#[trigger] v[i])) {
        v
    } else {
        "'"@ + escape_quotes(v) + "'"@
    }
}

fn char_is_shell_safe(c: char) -> (r: bool)
    ensures
        r == is_shell_safe(c),
{
    ('0' <= c && c <= '9') || ('a' <= c && c <= 'z') || ('A' <= c && c <= 'Z') || c == '@' || c
        == '%' || c == '_' || c == '+' || c == '=' || c == ':' || c == ',' || c == '.' || c == '/'
        || c == '-'
}

/// How a POSIX shell splits a command line into words, outside quotes:
/// a space ends the word begun (if any); characters that are no shell
/// syntax stand for themselves; `\c` stands for `c`; `'` opens a quoted
/// part, which begins a word even when empty. Anything else (a `$`, a
/// glob, a redirection or other operator) makes the line no plain list of
/// words (`None`). `cur` is the word being read, `started` whether one is,
/// `done` the words read before it.
pub open spec fn sh_read(s: Seq<char>, cur: Seq<char>, started: bool, done: Seq<Seq<char>>) -> Option<Seq<Seq<char>>>
    decreases s.len(), 0int,
{
    if s.len() == 0 {
        Some(if started { done.push(cur) } else { done })
    } else if s[0] == ' ' {
        sh_read(s.drop_first(), Seq::<char>::empty(), false, if started { done.push(cur) } else { done })
    } else if s[0] == '\'' {
        sh_read_quoted(s.drop_first(), cur, done)
    } else if s[0] == '\\' {
        if s.len() < 2 || s[1] == '\n' {
            None
        } else {
            sh_read(s.skip(2), cur.push(s[1]), true, done)
        }
    } else if is_shell_safe(s[0]) {
        sh_read(s.drop_first(), cur.push(s[0]), true, done)
    } else {
        None
    }
}

/// How a POSIX shell reads inside single quotes: every character stands
/// for itself up to the closing `'`; an unclosed quote gives `None`.
pub open spec fn sh_read_quoted(s: Seq<char>, cur: Seq<char>, done: Seq<Seq<char>>) -> Option<Seq<Seq<char>>>
    decreases s.len(), 1int,
{
    if s.len() == 0 {
        None
    } else if s[0] == '\'' {
        sh_read(s.drop_first(), cur, true, done)
    } else {
        sh_read_quoted(s.drop_first(), cur.push(s[0]), done)
    }
}

/// The words a POSIX shell reads from a command line.
pub open spec fn sh_command_words(s: Seq<char>) -> Option<Seq<Seq<char>>> {
    sh_read(s, Seq::<char>::empty(), false, Seq::<Seq<char>>::empty())
}

proof fn lemma_escape_quotes_front(c: char, w: Seq<char>)
    ensures
        escape_quotes(seq![c] + w) == escape_quotes(seq![c]) + escape_quotes(w),
    decreases w.len(),
{
    if w.len() == 0 {
        assert(seq![c] + w =~= seq![c]);
        assert(escape_quotes(seq![c]) + escape_quotes(w) =~= escape_quotes(seq![c]));
    } else {
        let v = seq![c] + w;
        assert(v.drop_last() =~= seq![c] + w.drop_last());
        lemma_escape_quotes_front(c, w.drop_last());
        assert(v.last() == w.last());
        assert(escape_quotes(v) =~= escape_quotes(seq![c]) + escape_quotes(w));
    }
}

proof fn lemma_escape_one(c: char)
    ensures
        escape_quotes(seq![c]) == (if c == '\'' { "'\\''"@ } else { seq![c] }),
{
    assert(seq![c].drop_last() =~= Seq::<char>::empty());
    assert(escape_quotes(Seq::<char>::empty()) == Seq::<char>::empty());
    if c == '\'' {
        assert(Seq::<char>::empty() + "'\\''"@ =~= "'\\''"@);
    } else {
        assert(Seq::<char>::empty() + seq![c] =~= seq![c]);
    }
}

proof fn lemma_read_escaped(v: Seq<char>, tail: Seq<char>, cur: Seq<char>, done: Seq<Seq<char>>)
    ensures
        sh_read_quoted(escape_quotes(v) + tail, cur, done) == sh_read_quoted(tail, cur + v, done),
    decreases v.len(),
{
    reveal_strlit("'\\''");
    if v.len() == 0 {
        assert(escape_quotes(v) + tail =~= tail);
        assert(cur + v =~= cur);
    } else {
        let c = v[0];
        let w = v.drop_first();
        assert(v =~= seq![c] + w);
        lemma_escape_quotes_front(c, w);
        lemma_escape_one(c);
        lemma_read_escaped(w, tail, cur.push(c), done);
        assert(cur.push(c) + w =~= cur + v);
        let rest = escape_quotes(w) + tail;
        let s = escape_quotes(v) + tail;
        if c == '\'' {
            assert(s =~= "'\\''"@ + rest);
            let s1 = s.drop_first();
            assert(s1[0] == '\\' && s1[1] == '\'');
            assert(s1.skip(2) =~= seq!['\''] + rest);
            assert((seq!['\''] + rest).drop_first() =~= rest);
            assert(sh_read(seq!['\''] + rest, cur.push(c), true, done) == sh_read_quoted(rest, cur.push(c), done));
            assert(sh_read(s1, cur, true, done) == sh_read(s1.skip(2), cur.push(c), true, done));
            assert(sh_read_quoted(s, cur, done) == sh_read(s1, cur, true, done));
        } else {
            assert(s =~= seq![c] + rest);
            assert(s.drop_first() =~= rest);
            assert(sh_read_quoted(s, cur, done) == sh_read_quoted(rest, cur.push(c), done));
        }
    }
}

proof fn lemma_read_safe(v: Seq<char>, rest: Seq<char>, cur: Seq<char>, started: bool, done: Seq<Seq<char>>)
    requires
        v.len() > 0,
        forall|i: int| 0 <= i < v.len() ==> is_shell_safe(#[trigger] v[i]),
    ensures
        sh_read(v + rest, cur, started, done) == sh_read(rest, cur + v, true, done),
    decreases v.len(),
{
    let c = v[0];
    assert(is_shell_safe(c));
    assert(c != '\'' && c != '\\' && c != ' ');
    let w = v.drop_first();
    assert((v + rest).drop_first() =~= w + rest);
    assert(cur.push(c) + w =~= cur + v);
    if w.len() > 0 {
        assert forall|i: int| 0 <= i < w.len() implies is_shell_safe(#[trigger] w[i]) by {
            assert(w[i] == v[i + 1]);
        }
        lemma_read_safe(w, rest, cur.push(c), true, done);
    } else {
        assert(w + rest =~= rest);
    }
}

/// Reading a quoted word adds exactly that word's text to the word being
/// read.
proof fn lemma_read_quoted_word(v: Seq<char>, rest: Seq<char>, cur: Seq<char>, started: bool, done: Seq<Seq<char>>)
    ensures
        sh_read(spec_shell_quote(v) + rest, cur, started, done) == sh_read(rest, cur + v, true, done),
{
    reveal_strlit("'");
    if v.len() > 0 && (forall|i: int| 0 <= i < v.len() ==> is_shell_safe(#[trigger] v[i])) {
        lemma_read_safe(v, rest, cur, started, done);
    } else {
        let s = spec_shell_quote(v) + rest;
        assert(s =~= seq!['\''] + (escape_quotes(v) + (seq!['\''] + rest)));
        assert(s.drop_first() =~= escape_quotes(v) + (seq!['\''] + rest));
        lemma_read_escaped(v, seq!['\''] + rest, cur, done);
        assert((seq!['\''] + rest).drop_first() =~= rest);
        assert(sh_read_quoted(seq!['\''] + rest, cur + v, done) == sh_read(rest, cur + v, true, done));
        assert(sh_read(s, cur, started, done) == sh_read_quoted(s.drop_first(), cur, done));
    }
}

proof fn lemma_read_join(words: Seq<Seq<char>>, rest: Seq<char>, done: Seq<Seq<char>>)
    requires
        words.len() > 0,
    ensures
        sh_read(sh_join(words) + rest, Seq::<char>::empty(), false, done) == sh_read(
            rest,
            words.last(),
            true,
            done + words.drop_last(),
        ),
    decreases words.len(),
{
    reveal_strlit(" ");
    if words.len() == 1 {
        lemma_read_quoted_word(words[0], rest, Seq::<char>::empty(), false, done);
        assert(Seq::<char>::empty() + words[0] =~= words[0]);
        assert(done + words.drop_last() =~= done);
    } else {
        let front = words.drop_last();
        let x = words.last();
        let tail = seq![' '] + (spec_shell_quote(x) + rest);
        assert(sh_join(words) + rest =~= sh_join(front) + tail);
        lemma_read_join(front, tail, done);
        assert(tail.drop_first() =~= spec_shell_quote(x) + rest);
        let done2 = (done + front.drop_last()).push(front.last());
        assert(done2 =~= done + front);
        lemma_read_quoted_word(x, rest, Seq::<char>::empty(), false, done2);
        assert(Seq::<char>::empty() + x =~= x);
    }
}

/// A shell reads words quoted by `shell_quote` and joined by spaces back as
/// those words; in particular `shell_quote(v)` alone is read as the one word
/// `v`, with nothing expanded, split or matched as a pattern.
pub proof fn lemma_sh_join_reads_back(words: Seq<Seq<char>>)
    requires
        words.len() > 0,
    ensures
        sh_command_words(sh_join(words)) == Some(words),
{
    lemma_read_join(words, Seq::<char>::empty(), Seq::<Seq<char>>::empty());
    assert(sh_join(words) + Seq::<char>::empty() =~= sh_join(words));
    assert((Seq::<Seq<char>>::empty() + words.drop_last()).push(words.last()) =~= words);
}

/// `shell_quote(v)` is read by a shell as exactly the one word `v`.
pub proof fn lemma_shell_quote_one_word(v: Seq<char>)
    ensures
        sh_command_words(spec_shell_quote(v)) == Some(seq![v]),
{
    assert(seq![v].len() == 1);
    assert(sh_join(seq![v]) == spec_shell_quote(seq![v][0]));
    lemma_sh_join_reads_back(seq![v]);
}

/// Quotes `value` for a POSIX shell.
pub fn shell_quote(value: &str) -> (r: String)
    ensures
        r@ == spec_shell_quote(value@),
{
    let cs = chars_of(value);
    let mut safe = cs.len() > 0;
    let mut i: usize = 0;
    while i < cs.len()
        invariant
            i <= cs@.len(),
            safe == (cs@.len() > 0 && forall|j: int| 0 <= j < i ==> is_shell_safe(#[trigger] cs@[j])),
        decreases cs@.len() - i,
    {
        if !char_is_shell_safe(cs[i]) {
            safe = false;
        }
        i = i + 1;
    }
    if safe {
        return owned(value);
    }
    let mut out = owned("'");
    let ghost start = out@;
    let mut k: usize = 0;
    while k < cs.len()
        invariant
            k <= cs@.len(),
            start == "'"@,
            out@ == start + escape_quotes(cs@.subrange(0, k as int)),
        decreases cs@.len() - k,
    {
        let c = cs[k];
        assert(cs@.subrange(0, k + 1).drop_last() =~= cs@.subrange(0, k as int));
        if c == '\'' {
            push_str(&mut out, "'\\''");
        } else {
            push_char(&mut out, c);
        }
        k = k + 1;
        assert(out@ =~= start + escape_quotes(cs@.subrange(0, k as int)));
    }
    assert(cs@.subrange(0, cs@.len() as int) =~= cs@);
    push_str(&mut out, "'");
    out
}

/// The command a user runs to reattach: program, `--remote <target>`, and
/// `--session <name>` unless the session is the default one. An empty
/// program name reads as `herdr`.
pub open spec fn spec_reattach_command(program: Seq<char>, target: Seq<char>, session: Seq<char>) -> Seq<char> {
    let program = if program.len() == 0 { "herdr"@ } else { program };
    spec_shell_quote(program) + " --remote "@ + spec_shell_quote(target) + session_suffix(session)
}

/// `" --session <name>"`, or nothing for the default session.
pub open spec fn session_suffix(session: Seq<char>) -> Seq<char> {
    if session == DEFAULT_SESSION_NAME@ {
        Seq::<char>::empty()
    } else {
        " --session "@ + spec_shell_quote(session)
    }
}

fn push_session_suffix(out: &mut String, session: &str)
    ensures
        final(out)@ == old(out)@ + session_suffix(session@),
{
    if !str_eq(session, DEFAULT_SESSION_NAME) {
        push_str(out, " --session ");
        let q = shell_quote(session);
        push_str(out, q.as_str());
    }
}

/// The command line that reattaches to a remote session over SSH.
pub fn reattach_command(program: &str, target: &str, session_name: &str) -> (r: String)
    ensures
        r@ == spec_reattach_command(program@, target@, session_name@),
{
    let program = if program.is_empty() { "herdr" } else { program };
    let mut out = shell_quote(program);
    push_str(&mut out, " --remote ");
    let t = shell_quote(target);
    push_str(&mut out, t.as_str());
    push_session_suffix(&mut out, session_name);
    out
}

/// `" <flag> <quoted value>"` when the value is present.
pub open spec fn opt_flag(flag: Seq<char>, v: Option<Seq<char>>) -> Seq<char> {
    match v {
        Some(x) => " "@ + flag + " "@ + spec_shell_quote(x),
        None => Seq::<char>::empty(),
    }
}

fn push_opt_flag(out: &mut String, flag: &str, v: &Option<String>)
    ensures
        final(out)@ == old(out)@ + opt_flag(flag@, opt_view(*v)),
{
    if let Some(x) = v {
        push_str(out, " ");
        push_str(out, flag);
        push_str(out, " ");
        let q = shell_quote(x.as_str());
        push_str(out, q.as_str());
    }
}

/// The reattach command for a WebSocket remote: the SSH form followed by
/// the WebSocket flags in a fixed order.
pub open spec fn spec_ws_reattach_command(program: Seq<char>, url: Seq<char>, ws: WsLaunchView, session: Seq<char>) -> Seq<char> {
    spec_reattach_command(program, url, session)
        + opt_flag("--password"@, ws.password)
        + opt_flag("--fingerprint"@, ws.fingerprint)
        + (if ws.pubkey_auth { " --ws-pubkey-auth"@ } else { Seq::<char>::empty() })
        + opt_flag("--ws-identity"@, ws.identity_file)
}

/// The command line that reattaches to a remote session over WebSocket.
pub fn ws_reattach_command(program: &str, url: &str, ws_cfg: &WsLaunchConfig, session_name: &str) -> (r: String)
    ensures
        r@ == spec_ws_reattach_command(program@, url@, ws_cfg@, session_name@),
{
    let mut out = reattach_command(program, url, session_name);
    push_opt_flag(&mut out, "--password", &ws_cfg.password);
    push_opt_flag(&mut out, "--fingerprint", &ws_cfg.fingerprint);
    if ws_cfg.pubkey_auth {
        push_str(&mut out, " --ws-pubkey-auth");
    }
    push_opt_flag(&mut out, "--ws-identity", &ws_cfg.identity_file);
    out
}

/// Operating system and architecture, as named in release asset keys.
#[derive(Debug, Clone, Copy)]
pub struct RemotePlatform {
    pub os: &'static str,
    pub arch: &'static str,
}

impl RemotePlatform {
    /// The platform that `uname -s` / `uname -m` report, among those herdr
    /// ships for.
    pub open spec fn spec_from_uname(os: Seq<char>, arch: Seq<char>) -> Option<(Seq<char>, Seq<char>)> {
        let os = trim(os);
        let arch = trim(arch);
        let o = if os == "Linux"@ {
            Some("linux"@)
        } else if os == "Darwin"@ {
            Some("macos"@)
        } else {
            None
        };
        let a = if arch == "x86_64"@ || arch == "amd64"@ {
            Some("x86_64"@)
        } else if arch == "aarch64"@ || arch == "arm64"@ {
            Some("aarch64"@)
        } else {
            None
        };
        match (o, a) {
            (Some(o), Some(a)) => Some((o, a)),
            _ => None,
        }
    }

    /// Maps `uname -s` / `uname -m` output to a supported platform.
    pub fn from_uname(os: &str, arch: &str) -> (r: Option<RemotePlatform>)
        ensures
            match Self::spec_from_uname(os@, arch@) {
                Some((o, a)) => r matches Some(p) && p.os@ == o && p.arch@ == a,
                None => r is None,
            },
    {
        let os_t = trim_str(os);
        let arch_t = trim_str(arch);
        let o: &'static str = if str_eq(os_t.as_str(), "Linux") {
            "linux"
        } else if str_eq(os_t.as_str(), "Darwin") {
            "macos"
        } else {
            return None;
        };
        let a: &'static str = if str_eq(arch_t.as_str(), "x86_64") || str_eq(arch_t.as_str(), "amd64") {
            "x86_64"
        } else if str_eq(arch_t.as_str(), "aarch64") || str_eq(arch_t.as_str(), "arm64") {
            "aarch64"
        } else {
            return None;
        };
        Some(RemotePlatform { os: o, arch: a })
    }

    /// `<os>-<arch>`.
    pub open spec fn spec_asset_key(&self) -> Seq<char> {
        self.os@ + "-"@ + self.arch@
    }

    /// The key of this platform's binary in the release manifest.
    pub fn asset_key(&self) -> (r: String)
        ensures
            r@ == self.spec_asset_key(),
    {
        let mut s = owned(self.os);
        push_str(&mut s, "-");
        push_str(&mut s, self.arch);
        s
    }

    /// Whether two platforms name the same OS and architecture.
    pub fn same_as(&self, other: &RemotePlatform) -> (r: bool)
        ensures
            r == (self.os@ == other.os@ && self.arch@ == other.arch@),
    {
        str_eq(self.os, other.os) && str_eq(self.arch, other.arch)
    }
}

/// Where herdr lives on a remote host.
#[derive(Debug, Clone)]
pub struct RemoteHerdr {
    /// Install location below `$HOME`.
    pub install_suffix: String,
    /// How the remote shell names the binary.
    pub shell_path: String,
    pub platform: RemotePlatform,
}

impl RemoteHerdr {
    /// The default install location, `~/.local/bin/herdr`.
    pub fn for_platform(platform: RemotePlatform) -> (r: Self)
        ensures
            r.install_suffix@ == ".local/bin/herdr"@,
            r.shell_path@ == "\"$HOME/.local/bin/herdr\""@,
            r.platform == platform,
    {
        RemoteHerdr {
            install_suffix: owned(".local/bin/herdr"),
            shell_path: owned("\"$HOME/.local/bin/herdr\""),
            platform,
        }
    }

    /// The same install, named by another shell path.
    pub fn with_shell_path(self, shell_path: String) -> (r: Self)
        ensures
            r.install_suffix == self.install_suffix,
            r.shell_path == shell_path,
            r.platform == self.platform,
    {
        RemoteHerdr { shell_path, ..self }
    }
}

/// The remote command that runs the client bridge of the given session.
pub open spec fn spec_remote_bridge_command(shell_path: Seq<char>, session: Seq<char>) -> Seq<char> {
    "exec "@ + shell_path + session_suffix(session) + " remote-client-bridge"@
}

/// `exec <herdr> [--session <name>] remote-client-bridge`.
pub fn remote_bridge_command(remote_herdr: &RemoteHerdr, session_name: &str) -> (r: String)
    ensures
        r@ == spec_remote_bridge_command(remote_herdr.shell_path@, session_name@),
{
    let mut out = owned("exec ");
    push_str(&mut out, remote_herdr.shell_path.as_str());
    push_session_suffix(&mut out, session_name);
    push_str(&mut out, " remote-client-bridge");
    out
}

/// The shell script that prints the path and version of the `herdr` on the
/// remote `PATH`.
pub fn remote_path_probe_command() -> (r: &'static str)
    ensures
        r@ == "path=$(command -v herdr) || exit 1\ntest -n \"$path\" || exit 1\nversion=$(\"$path\" --version) || exit 1\nprintf '%s\\n%s\\n' \"$path\" \"$version\"\n"@,
{
    "path=$(command -v herdr) || exit 1\ntest -n \"$path\" || exit 1\nversion=$(\"$path\" --version) || exit 1\nprintf '%s\\n%s\\n' \"$path\" \"$version\"\n"
}

/// The version line a matching herdr prints.
pub open spec fn version_line() -> Seq<char> {
    "herdr "@ + CURRENT_VERSION@
}

fn version_line_exec() -> (r: String)
    ensures
        r@ == version_line(),
{
    let mut v = owned("herdr ");
    push_str(&mut v, CURRENT_VERSION);
    v
}

/// The remote herdr that the `PATH` probe reports: accepted only when the
/// first line is an absolute path and the second, trimmed, is this version.
pub open spec fn spec_path_probe(stdout: Seq<char>) -> Option<Seq<char>> {
    match next_line(stdout) {
        None => None,
        Some((path, rest)) => match next_line(rest) {
            None => None,
            Some((version, _)) => if path.len() > 0 && path[0] == '/' && trim(version) == version_line() {
                Some(path)
            } else {
                None
            },
        },
    }
}

/// Reads the output of the `PATH` probe; a matching binary is named by its
/// quoted path.
pub fn remote_herdr_from_path_probe(remote_herdr: &RemoteHerdr, stdout: &str) -> (r: Option<RemoteHerdr>)
    ensures
        match spec_path_probe(stdout@) {
            Some(path) => r matches Some(h) && h.shell_path@ == spec_shell_quote(path)
                && h.install_suffix@ == remote_herdr.install_suffix@ && h.platform == remote_herdr.platform,
            None => r is None,
        },
{
    let cs = chars_of(stdout);
    let (path, rest) = split_line(cs.as_slice())?;
    let (version, _) = split_line(rest.as_slice())?;
    let v = trim_chars(version.as_slice());
    let expected = chars_of(version_line_exec().as_str());
    if path.len() == 0 || path[0] != '/' || !seq_eq(v.as_slice(), expected.as_slice()) {
        return None;
    }
    let p = string_of(path.as_slice());
    let quoted = shell_quote(p.as_str());
    Some(remote_herdr.clone_herdr().with_shell_path(quoted))
}

impl RemoteHerdr {
    /// A copy of this value.
    pub fn clone_herdr(&self) -> (r: Self)
        ensures
            r.install_suffix@ == self.install_suffix@,
            r.shell_path@ == self.shell_path@,
            r.platform == self.platform,
    {
        RemoteHerdr {
            install_suffix: self.install_suffix.clone(),
            shell_path: self.shell_path.clone(),
            platform: self.platform,
        }
    }
}

/// The command that runs the installed binary's `--version` when it exists.
pub open spec fn spec_version_check_command(shell_path: Seq<char>) -> Seq<char> {
    "test -x "@ + shell_path + " && "@ + shell_path + " --version"@
}

/// `test -x <herdr> && <herdr> --version`.
pub fn version_check_command(remote_herdr: &RemoteHerdr) -> (r: String)
    ensures
        r@ == spec_version_check_command(remote_herdr.shell_path@),
{
    let mut c = owned("test -x ");
    push_str(&mut c, remote_herdr.shell_path.as_str());
    push_str(&mut c, " && ");
    push_str(&mut c, remote_herdr.shell_path.as_str());
    push_str(&mut c, " --version");
    c
}

/// Whether a `--version` output, trimmed, is this version's line.
pub fn reports_current_version(stdout: &str) -> (r: bool)
    ensures
        r == (trim(stdout@) == version_line()),
{
    let t = trim_str(stdout);
    let v = version_line_exec();
    str_eq(t.as_str(), v.as_str())
}

/// Characters kept by `sanitize_path_component`; the rest become `-`.
pub open spec fn is_path_safe(c: char) -> bool {
    is_alnum(c) || c == '.' || c == '_' || c == '-'
}

/// `s` without leading `-`.
pub open spec fn trim_start_dashes(s: Seq<char>) -> Seq<char>
    decreases s.len(),
{
    if s.len() > 0 && s[0] == '-' {
        trim_start_dashes(s.drop_first())
    } else {
        s
    }
}

/// `s` without trailing `-`.
pub open spec fn trim_end_dashes(s: Seq<char>) -> Seq<char>
    decreases s.len(),
{
    if s.len() > 0 && s.last() == '-' {
        trim_end_dashes(s.drop_last())
    } else {
        s
    }
}

/// A path-safe form of `input`: unsafe characters become `-`, dashes are
/// trimmed from both ends, and at most 32 characters are kept.
pub open spec fn spec_sanitize_path_component(input: Seq<char>) -> Seq<char> {
    let mapped = input.map_values(|c: char| if is_path_safe(c) { c } else { '-' });
    let t = trim_end_dashes(trim_start_dashes(mapped));
    if t.len() <= 32 {
        t
    } else {
        t.take(32)
    }
}

fn start_without_dashes(s: &[char], from: usize) -> (r: usize)
    requires
        from <= s@.len(),
    ensures
        from <= r <= s@.len(),
        trim_start_dashes(s@.skip(from as int)) == s@.skip(r as int),
    decreases s@.len() - from,
{
    if from < s.len() && s[from] == '-' {
        assert(s@.skip(from as int).drop_first() =~= s@.skip(from + 1));
        start_without_dashes(s, from + 1)
    } else {
        from
    }
}

fn end_without_dashes(s: &[char], from: usize, to: usize) -> (r: usize)
    requires
        from <= to <= s@.len(),
    ensures
        from <= r <= to,
        trim_end_dashes(s@.subrange(from as int, to as int)) == s@.subrange(from as int, r as int),
    decreases to - from,
{
    if from < to && s[to - 1] == '-' {
        assert(s@.subrange(from as int, to as int).drop_last() =~= s@.subrange(from as int, to - 1));
        end_without_dashes(s, from, to - 1)
    } else {
        to
    }
}

/// Makes `input` usable inside a file name.
pub fn sanitize_path_component(input: &str) -> (r: String)
    ensures
        r@ == spec_sanitize_path_component(input@),
{
    let cs = chars_of(input);
    let ghost mapped = input@.map_values(|c: char| if is_path_safe(c) { c } else { '-' });
    let mut m: Vec<char> = Vec::new();
    let mut i: usize = 0;
    while i < cs.len()
        invariant
            i <= cs@.len(),
            cs@ == input@,
            mapped == input@.map_values(|c: char| if is_path_safe(c) { c } else { '-' }),
            m@ == mapped.subrange(0, i as int),
        decreases cs@.len() - i,
    {
        let c = cs[i];
        let safe = ('0' <= c && c <= '9') || ('a' <= c && c <= 'z') || ('A' <= c && c <= 'Z') || c
            == '.' || c == '_' || c == '-';
        m.push(if safe { c } else { '-' });
        i = i + 1;
        assert(m@ =~= mapped.subrange(0, i as int));
    }
    assert(m@ =~= mapped);
    let a = start_without_dashes(m.as_slice(), 0);
    assert(m@.skip(0) =~= m@);
    let b = end_without_dashes(m.as_slice(), a, m.len());
    assert(m@.skip(a as int) =~= m@.subrange(a as int, m@.len() as int));
    let end = if b - a <= 32 { b } else { a + 32 };
    if b - a > 32 {
        assert(m@.subrange(a as int, b as int).take(32) =~= m@.subrange(a as int, a + 32));
    }
    string_of_range(m.as_slice(), a, end)
}

/// The longest socket path accepted: `sun_path` holds 104 bytes on macOS
/// (108 on Linux), less the trailing NUL.
pub const MAX_SOCKET_PATH_BYTES: usize = 103;

/// Whether a socket path fits in `sun_path` on every supported platform.
pub open spec fn spec_fits_socket_path(path: Seq<char>) -> bool {
    encode_utf8(path).len() <= MAX_SOCKET_PATH_BYTES
}

/// Whether a socket path fits in `sun_path` on every supported platform.
pub fn fits_unix_socket_path(path: &str) -> (r: bool)
    ensures
        r == spec_fits_socket_path(path@),
{
    utf8_len_at_most(path, MAX_SOCKET_PATH_BYTES)
}

/// `Path::join` on Unix for a relative file name.
pub open spec fn join_path(dir: Seq<char>, name: Seq<char>) -> Seq<char> {
    if dir.len() == 0 || dir.last() == '/' {
        dir + name
    } else {
        dir + "/"@ + name
    }
}

/// Joins a relative file name to a directory.
pub fn join_path_exec(dir: &str, name: &str) -> (r: String)
    ensures
        r@ == join_path(dir@, name@),
{
    let cs = chars_of(dir);
    let mut out = owned(dir);
    if !(cs.len() == 0 || cs[cs.len() - 1] == '/') {
        push_str(&mut out, "/");
    }
    push_str(&mut out, name);
    out
}

/// The lower-case hex digit for `d < 16`.
pub open spec fn hex_digit(d: u64) -> char {
    if d < 10 {
        (('0' as u64) + d) as char
    } else {
        (('a' as u64) + d - 10) as char
    }
}

/// `format!("{:016x}", n)`.
pub open spec fn hex16(n: u64) -> Seq<char> {
    Seq::new(16, |i: int| hex_digit((n >> ((60 - 4 * i) as u64)) & 15))
}

/// Formats `n` as 16 lower-case hex digits.
pub fn format_hex16(n: u64) -> (r: String)
    ensures
        r@ == hex16(n),
{
    let mut out = String::new();
    let mut i: u64 = 0;
    while i < 16
        invariant
            i <= 16,
            out@ == hex16(n).subrange(0, i as int),
        decreases 16 - i,
    {
        let sh: u64 = 60 - 4 * i;
        let d = (n >> sh) & 15;
        assert(d < 16) by (bit_vector)
            requires
                d == (n >> sh) & 15,
        ;
        let c = if d < 10 { (('0' as u8) + (d as u8)) as char } else { (('a' as u8) + (d as u8) - 10) as char };
        assert(c == hex_digit(d));
        push_char(&mut out, c);
        i = i + 1;
        assert(out@ =~= hex16(n).subrange(0, i as int));
    }
    assert(hex16(n).subrange(0, 16) =~= hex16(n));
    out
}

/// What the `DefaultHasher` is fed for a socket name: the target, a zero
/// byte, and the session, each string followed by `0xff` as `str`'s
/// `Hash` does.
pub open spec fn socket_hash_input(target: Seq<char>, session: Seq<char>) -> Seq<Seq<u8>> {
    seq![encode_utf8(target), seq![0xffu8], seq![0u8], encode_utf8(session), seq![0xffu8]]
}

/// A short hash of a target and session, for socket names.
pub open spec fn spec_short_socket_hash(target: Seq<char>, session: Seq<char>) -> Seq<char> {
    hex16(DefaultHasher::spec_finish(socket_hash_input(target, session)))
}

/// 16 hex digits of `DefaultHasher` over the target and session.
pub fn short_socket_hash(target: &str, session: &str) -> (r: String)
    ensures
        r@ == spec_short_socket_hash(target@, session@),
{
    let ff: Vec<u8> = vec![0xffu8];
    let zero: Vec<u8> = vec![0u8];
    assert(ff@ =~= seq![0xffu8]);
    assert(zero@ =~= seq![0u8]);
    let tb = target.as_bytes();
    let sb = session.as_bytes();
    assert(tb@ == encode_utf8(target@));
    assert(sb@ == encode_utf8(session@));
    let mut h = DefaultHasher::new();
    h.write(tb);
    h.write(ff.as_slice());
    h.write(zero.as_slice());
    h.write(sb);
    h.write(ff.as_slice());
    assert(h@ =~= socket_hash_input(target@, session@));
    format_hex16(h.finish())
}

/// The readable socket name `herdr-remote-<pid>-<target>-<session>.sock`.
pub open spec fn readable_socket_name(pid: u32, target: Seq<char>, session: Seq<char>) -> Seq<char> {
    "herdr-remote-"@ + decimal(pid as nat) + "-"@ + spec_sanitize_path_component(target) + "-"@
        + spec_sanitize_path_component(session) + ".sock"@
}

/// The short socket name `herdr-r-<pid>-<target prefix>-<hash>.sock`.
pub open spec fn short_socket_name(pid: u32, target: Seq<char>, session: Seq<char>) -> Seq<char> {
    let clean = spec_sanitize_path_component(target);
    let prefix = if clean.len() <= 8 { clean } else { clean.take(8) };
    "herdr-r-"@ + decimal(pid as nat) + "-"@ + prefix + "-"@ + spec_short_socket_hash(target, session) + ".sock"@
}

/// The local socket the bridge listens on: the readable name in `tmpdir`
/// when it fits in `sun_path`, else the short name in `tmpdir`, else the
/// short name in `/tmp`.
pub open spec fn spec_local_forward_socket_path(tmpdir: Seq<char>, pid: u32, target: Seq<char>, session: Seq<char>) -> Seq<char> {
    let readable = join_path(tmpdir, readable_socket_name(pid, target, session));
    let short_in_tmp = join_path(tmpdir, short_socket_name(pid, target, session));
    if spec_fits_socket_path(readable) {
        readable
    } else if spec_fits_socket_path(short_in_tmp) {
        short_in_tmp
    } else {
        join_path("/tmp"@, short_socket_name(pid, target, session))
    }
}

/// The local bridge socket for a target and session, given the temporary
/// directory and the process id.
pub fn local_forward_socket_path(tmpdir: &str, pid: u32, target: &str, session_name: &str) -> (r: String)
    ensures
        r@ == spec_local_forward_socket_path(tmpdir@, pid, target@, session_name@),
{
    let pid_s = format_decimal(pid as u64);
    let target_clean = sanitize_path_component(target);
    let session_clean = sanitize_path_component(session_name);
    let mut readable_name = owned("herdr-remote-");
    push_str(&mut readable_name, pid_s.as_str());
    push_str(&mut readable_name, "-");
    push_str(&mut readable_name, target_clean.as_str());
    push_str(&mut readable_name, "-");
    push_str(&mut readable_name, session_clean.as_str());
    push_str(&mut readable_name, ".sock");
    let readable = join_path_exec(tmpdir, readable_name.as_str());
    if fits_unix_socket_path(readable.as_str()) {
        return readable;
    }
    let tc = chars_of(target_clean.as_str());
    let plen = if tc.len() <= 8 { tc.len() } else { 8 };
    let prefix = string_of_range(tc.as_slice(), 0, plen);
    assert(prefix@ == (if target_clean@.len() <= 8 { target_clean@ } else { target_clean@.take(8) })) by {
        assert(tc@.subrange(0, tc@.len() as int) =~= tc@);
    }
    let hash = short_socket_hash(target, session_name);
    let mut short_name = owned("herdr-r-");
    push_str(&mut short_name, pid_s.as_str());
    push_str(&mut short_name, "-");
    push_str(&mut short_name, prefix.as_str());
    push_str(&mut short_name, "-");
    push_str(&mut short_name, hash.as_str());
    push_str(&mut short_name, ".sock");
    let short_in_tmp = join_path_exec(tmpdir, short_name.as_str());
    if fits_unix_socket_path(short_in_tmp.as_str()) {
        return short_in_tmp;
    }
    join_path_exec("/tmp", short_name.as_str())
}

/// Environment variable naming a local binary to install remotely.
pub const REMOTE_BINARY_ENV_VAR: &'static str = "HERDR_REMOTE_BINARY";

/// Environment variable through which the client learns how to reattach.
pub const REATTACH_COMMAND_ENV_VAR: &'static str = "HERDR_REATTACH_COMMAND";

/// URL of the release manifest.
pub const UPDATE_MANIFEST_URL: &'static str = "https://herdr.dev/latest.json";

/// How the install prompt names the binary it will copy: the override
/// binary, the running binary when the platforms agree, or the release
/// asset.
pub open spec fn spec_install_source_description(platform: RemotePlatform, local: RemotePlatform, override_binary: Option<Seq<char>>) -> Seq<char> {
    match override_binary {
        Some(p) => REMOTE_BINARY_ENV_VAR@ + " ("@ + p + ")"@,
        None => if platform.os@ == local.os@ && platform.arch@ == local.arch@ {
            "the current local herdr binary"@
        } else {
            "the "@ + CURRENT_VERSION@ + " release asset for "@ + platform.spec_asset_key()
        },
    }
}

/// Describes where the binary to be installed comes from; `local` is the
/// platform this build runs on.
pub fn install_source_description(platform: &RemotePlatform, local: &RemotePlatform, override_binary: Option<&str>) -> (r: String)
    ensures
        r@ == spec_install_source_description(*platform, *local, match override_binary {
            Some(p) => Some(p@),
            None => None,
        }),
{
    if let Some(path) = override_binary {
        let mut s = owned(REMOTE_BINARY_ENV_VAR);
        push_str(&mut s, " (");
        push_str(&mut s, path);
        push_str(&mut s, ")");
        return s;
    }
    if platform.same_as(local) {
        owned("the current local herdr binary")
    } else {
        let mut s = owned("the ");
        push_str(&mut s, CURRENT_VERSION);
        push_str(&mut s, " release asset for ");
        let k = platform.asset_key();
        push_str(&mut s, k.as_str());
        s
    }
}

/// Where the binary to install is taken from.
#[derive(Debug, Clone, Copy, PartialEq, Eq, Structural)]
pub enum InstallPlan {
    /// The path named by `HERDR_REMOTE_BINARY`.
    Override,
    /// The running executable, which matches the remote platform.
    CurrentExe,
    /// The release asset for the remote platform.
    Download,
}

/// The plan for an install: the override when given, else the running
/// binary when the platforms agree, else the release asset.
pub open spec fn spec_install_plan(platform: RemotePlatform, local: RemotePlatform, has_override: bool) -> InstallPlan {
    if has_override {
        InstallPlan::Override
    } else if platform.os@ == local.os@ && platform.arch@ == local.arch@ {
        InstallPlan::CurrentExe
    } else {
        InstallPlan::Download
    }
}

/// Chooses where the binary to install is taken from.
pub fn install_plan(platform: &RemotePlatform, local: &RemotePlatform, has_override: bool) -> (r: InstallPlan)
    ensures
        r == spec_install_plan(*platform, *local, has_override),
{
    if has_override {
        InstallPlan::Override
    } else if platform.same_as(local) {
        InstallPlan::CurrentExe
    } else {
        InstallPlan::Download
    }
}

/// A local binary to copy to the remote host, with the temporary directory
/// to remove afterwards when it was downloaded.
#[derive(Debug, Clone)]
pub struct InstallSource {
    pub path: String,
    pub temporary_dir: Option<String>,
}

impl InstallSource {
    /// A binary that stays where it is.
    pub fn persistent(path: String) -> (r: Self)
        ensures
            r.path == path,
            r.temporary_dir is None,
    {
        InstallSource { path, temporary_dir: None }
    }

    /// A downloaded binary inside a directory to remove after the install.
    pub fn temporary(path: String, temporary_dir: String) -> (r: Self)
        ensures
            r.path == path,
            r.temporary_dir == Some(temporary_dir),
    {
        InstallSource { path, temporary_dir: Some(temporary_dir) }
    }
}

/// `manifest_version` without its leading `v`s (`trim_start_matches('v')`).
pub open spec fn trim_leading_v(s: Seq<char>) -> Seq<char>
    decreases s.len(),
{
    if s.len() > 0 && s[0] == 'v' {
        trim_leading_v(s.drop_first())
    } else {
        s
    }
}

/// What the release manifest offers for a platform: the asset URL when
/// the manifest is for this version and lists the platform, else the
/// message that explains why not.
pub open spec fn spec_check_release_manifest(manifest_version: Seq<char>, asset_key: Seq<char>, asset_url: Option<Seq<char>>) -> Result<Seq<char>, Seq<char>> {
    if trim_leading_v(manifest_version) != CURRENT_VERSION@ {
        Err("remote host is "@ + asset_key + ", but this local herdr is "@ + CURRENT_VERSION@
            + " and the latest release manifest is "@ + manifest_version
            + "; build herdr for the remote platform or install it there manually"@)
    } else {
        match asset_url {
            Some(u) => Ok(u),
            None => Err("no "@ + asset_key + " binary in the release manifest for herdr "@ + CURRENT_VERSION@),
        }
    }
}

fn skip_leading_v(cs: &[char], from: usize) -> (r: usize)
    requires
        from <= cs@.len(),
    ensures
        from <= r <= cs@.len(),
        trim_leading_v(cs@.skip(from as int)) == cs@.skip(r as int),
    decreases cs@.len() - from,
{
    if from < cs.len() && cs[from] == 'v' {
        assert(cs@.skip(from as int).drop_first() =~= cs@.skip(from + 1));
        skip_leading_v(cs, from + 1)
    } else {
        from
    }
}

/// Checks the release manifest's version and picks the platform's asset
/// (`asset_url` is what the manifest lists under `asset_key`).
pub fn check_release_manifest(manifest_version: &str, asset_key: &str, asset_url: Option<String>) -> (r: Result<String, String>)
    ensures
        match spec_check_release_manifest(manifest_version@, asset_key@, opt_view(asset_url)) {
            Ok(u) => r matches Ok(x) && x@ == u,
            Err(e) => r matches Err(x) && x@ == e,
        },
{
    let cs = chars_of(manifest_version);
    let k = skip_leading_v(cs.as_slice(), 0);
    assert(cs@.skip(0) =~= cs@);
    let trimmed = string_of_range(cs.as_slice(), k, cs.len());
    assert(cs@.skip(k as int) =~= cs@.subrange(k as int, cs@.len() as int));
    if !str_eq(trimmed.as_str(), CURRENT_VERSION) {
        let mut m = owned("remote host is ");
        push_str(&mut m, asset_key);
        push_str(&mut m, ", but this local herdr is ");
        push_str(&mut m, CURRENT_VERSION);
        push_str(&mut m, " and the latest release manifest is ");
        push_str(&mut m, manifest_version);
        push_str(&mut m, "; build herdr for the remote platform or install it there manually");
        return Err(m);
    }
    match asset_url {
        Some(u) => Ok(u),
        None => {
            let mut m = owned("no ");
            push_str(&mut m, asset_key);
            push_str(&mut m, " binary in the release manifest for herdr ");
            push_str(&mut m, CURRENT_VERSION);
            Err(m)
        },
    }
}

/// The name of the `attempt`-th private download directory.
pub open spec fn spec_download_dir_name(pid: u32, asset_key: Seq<char>, attempt: u32) -> Seq<char> {
    "herdr-remote-"@ + decimal(pid as nat) + "-"@ + asset_key + "-"@ + decimal(attempt as nat)
}

/// `herdr-remote-<pid>-<asset key>-<attempt>`.
pub fn download_dir_name(pid: u32, asset_key: &str, attempt: u32) -> (r: String)
    ensures
        r@ == spec_download_dir_name(pid, asset_key@, attempt),
{
    let mut s = owned("herdr-remote-");
    let p = format_decimal(pid as u64);
    push_str(&mut s, p.as_str());
    push_str(&mut s, "-");
    push_str(&mut s, asset_key);
    push_str(&mut s, "-");
    let a = format_decimal(attempt as u64);
    push_str(&mut s, a.as_str());
    s
}

/// Whether an answer to the install prompt declines: `n` or `no`, in any
/// ASCII case, around whitespace.
pub open spec fn spec_install_declined(answer: Seq<char>) -> bool {
    let a = ascii_lowercase(trim(answer));
    a == "n"@ || a == "no"@
}

/// Reads the answer to the install prompt.
pub fn install_declined(answer: &str) -> (r: bool)
    ensures
        r == spec_install_declined(answer@),
{
    let cs = chars_of(answer);
    let t = trim_chars(cs.as_slice());
    let a = to_ascii_lowercase(t.as_slice());
    let n = chars_of("n");
    let no = chars_of("no");
    seq_eq(a.as_slice(), n.as_slice()) || seq_eq(a.as_slice(), no.as_slice())
}

/// The script that installs the binary read from stdin at the remote
/// install location.
pub open spec fn spec_install_script(install_suffix: Seq<char>) -> Seq<char> {
    "dest=\"$HOME/"@ + install_suffix
        + "\"\ndir=\"${dest%/*}\"\nmkdir -p \"$dir\"\ntmp=\"${dest}.tmp.$$\"\ncat > \"$tmp\"\nchmod 755 \"$tmp\"\nmv \"$tmp\" \"$dest\"\n"@
}

/// The remote command that runs the install script under `sh -eu`.
pub open spec fn spec_install_command(install_suffix: Seq<char>) -> Seq<char> {
    "sh -eu -c "@ + spec_shell_quote(spec_install_script(install_suffix))
}

/// `sh -eu -c '<install script>'`.
pub fn install_command(remote_herdr: &RemoteHerdr) -> (r: String)
    ensures
        r@ == spec_install_command(remote_herdr.install_suffix@),
{
    let mut script = owned("dest=\"$HOME/");
    push_str(&mut script, remote_herdr.install_suffix.as_str());
    push_str(&mut script, "\"\ndir=\"${dest%/*}\"\nmkdir -p \"$dir\"\ntmp=\"${dest}.tmp.$$\"\ncat > \"$tmp\"\nchmod 755 \"$tmp\"\nmv \"$tmp\" \"$dest\"\n");
    let mut c = owned("sh -eu -c ");
    let q = shell_quote(script.as_str());
    push_str(&mut c, q.as_str());
    c
}

/// The platform named by the output of `uname -s; uname -m`: its first two
/// lines (missing lines read as empty).
pub open spec fn spec_platform_from_uname_output(stdout: Seq<char>) -> Result<(Seq<char>, Seq<char>), Seq<char>> {
    let (os, rest) = line_or_empty(stdout);
    let (arch, _) = line_or_empty(rest);
    match RemotePlatform::spec_from_uname(os, arch) {
        Some(p) => Ok(p),
        None => Err("unsupported remote platform: "@ + trim(os) + " "@ + trim(arch)),
    }
}

proof fn lemma_trim_word(w: Seq<char>)
    requires
        w.len() > 0,
        !crate::text::is_space(w[0]),
        !crate::text::is_space(w.last()),
    ensures
        trim(w) == w,
{
}

/// `uname` names are accepted exactly for Linux and macOS on x86-64 and
/// 64-bit ARM (under either name of each architecture), after trimming;
/// and each platform herdr ships for is read back from its own `uname -s`
/// and `uname -m` names.
pub proof fn lemma_from_uname_platforms(os: Seq<char>, arch: Seq<char>)
    ensures
        RemotePlatform::spec_from_uname(os, arch) is Some <==> {
            &&& (trim(os) == "Linux"@ || trim(os) == "Darwin"@)
            &&& (trim(arch) == "x86_64"@ || trim(arch) == "amd64"@ || trim(arch) == "aarch64"@ || trim(arch) == "arm64"@)
        },
        RemotePlatform::spec_from_uname(os, arch) matches Some((o, a)) ==> {
            &&& (o == "linux"@ <==> trim(os) == "Linux"@)
            &&& (o == "macos"@ <==> trim(os) == "Darwin"@)
            &&& (a == "x86_64"@ <==> (trim(arch) == "x86_64"@ || trim(arch) == "amd64"@))
            &&& (a == "aarch64"@ <==> (trim(arch) == "aarch64"@ || trim(arch) == "arm64"@))
        },
        RemotePlatform::spec_from_uname("Linux"@, "x86_64"@) == Some(("linux"@, "x86_64"@)),
        RemotePlatform::spec_from_uname("Linux"@, "aarch64"@) == Some(("linux"@, "aarch64"@)),
        RemotePlatform::spec_from_uname("Darwin"@, "x86_64"@) == Some(("macos"@, "x86_64"@)),
        RemotePlatform::spec_from_uname("Darwin"@, "aarch64"@) == Some(("macos"@, "aarch64"@)),
{
    reveal_strlit("Linux");
    reveal_strlit("Darwin");
    reveal_strlit("x86_64");
    reveal_strlit("aarch64");
    reveal_strlit("linux");
    reveal_strlit("macos");
    reveal_strlit("amd64");
    reveal_strlit("arm64");
    assert("aarch64"@ != "amd64"@ && "aarch64"@ != "x86_64"@ && "amd64"@ != "arm64"@ && "Linux"@ != "Darwin"@) by {
        assert("aarch64"@[1] != "amd64"@[1]);
        assert("aarch64"@[0] != "x86_64"@[0]);
        assert("amd64"@[1] != "arm64"@[1]);
        assert("Linux"@.len() != "Darwin"@.len());
    }
    lemma_trim_word("Linux"@);
    lemma_trim_word("Darwin"@);
    lemma_trim_word("x86_64"@);
    lemma_trim_word("aarch64"@);
    assert("linux"@ != "macos"@) by {
        assert("linux"@[0] != "macos"@[0]);
    }
    assert("x86_64"@ != "aarch64"@) by {
        assert("x86_64"@[0] != "aarch64"@[0]);
    }
}

/// Reads the output of `uname -s; uname -m`.
pub fn platform_from_uname_output(stdout: &str) -> (r: Result<RemotePlatform, String>)
    ensures
        match spec_platform_from_uname_output(stdout@) {
            Ok((o, a)) => r matches Ok(p) && p.os@ == o && p.arch@ == a,
            Err(e) => r matches Err(x) && x@ == e,
        },
{
    let cs = chars_of(stdout);
    let (os, rest) = line_or_empty_exec(cs.as_slice());
    let (arch, _) = line_or_empty_exec(rest.as_slice());
    let os_s = string_of(os.as_slice());
    let arch_s = string_of(arch.as_slice());
    match RemotePlatform::from_uname(os_s.as_str(), arch_s.as_str()) {
        Some(p) => Ok(p),
        None => {
            let mut m = owned("unsupported remote platform: ");
            let a = trim_str(os_s.as_str());
            push_str(&mut m, a.as_str());
            push_str(&mut m, " ");
            let b = trim_str(arch_s.as_str());
            push_str(&mut m, b.as_str());
            Err(m)
        },
    }
}

/// Arguments of the local `herdr ws-client-bridge` subprocess for a
/// WebSocket remote.
pub open spec fn spec_ws_bridge_args(url: Seq<char>, ws: WsLaunchView) -> Seq<Seq<char>> {
    seq!["ws-client-bridge"@, url]
        + (match ws.password { Some(p) => seq!["--password"@, p], None => Seq::<Seq<char>>::empty() })
        + (match ws.fingerprint { Some(f) => seq!["--fingerprint"@, f], None => Seq::<Seq<char>>::empty() })
        + (if ws.pubkey_auth { seq!["--pubkey-auth"@] } else { Seq::<Seq<char>>::empty() })
        + (match ws.identity_file { Some(i) => seq!["--identity"@, i], None => Seq::<Seq<char>>::empty() })
}

/// The argument list of the WebSocket bridge subprocess.
pub fn ws_bridge_args(url: &str, ws_cfg: &WsLaunchConfig) -> (r: Vec<String>)
    ensures
        views(r@) == spec_ws_bridge_args(url@, ws_cfg@),
{
    let mut v: Vec<String> = Vec::new();
    v.push(owned("ws-client-bridge"));
    v.push(owned(url));
    let ghost base = views(v@);
    assert(base =~= seq!["ws-client-bridge"@, url@]);
    if let Some(p) = &ws_cfg.password {
        v.push(owned("--password"));
        v.push(p.clone());
    }
    let ghost a = views(v@);
    assert(a =~= base + (match ws_cfg@.password { Some(p) => seq!["--password"@, p], None => Seq::<Seq<char>>::empty() }));
    if let Some(f) = &ws_cfg.fingerprint {
        v.push(owned("--fingerprint"));
        v.push(f.clone());
    }
    let ghost b = views(v@);
    assert(b =~= a + (match ws_cfg@.fingerprint { Some(f) => seq!["--fingerprint"@, f], None => Seq::<Seq<char>>::empty() }));
    if ws_cfg.pubkey_auth {
        v.push(owned("--pubkey-auth"));
    }
    let ghost c = views(v@);
    assert(c =~= b + (if ws_cfg@.pubkey_auth { seq!["--pubkey-auth"@] } else { Seq::<Seq<char>>::empty() }));
    if let Some(i) = &ws_cfg.identity_file {
        v.push(owned("--identity"));
        v.push(i.clone());
    }
    assert(views(v@) =~= c + (match ws_cfg@.identity_file { Some(i) => seq!["--identity"@, i], None => Seq::<Seq<char>>::empty() }));
    v
}

/// What inspecting the path named by `HERDR_REMOTE_BINARY` found.
#[derive(Debug, Clone)]
pub enum PathInspection {
    /// A regular file.
    File,
    /// Something other than a regular file.
    NotFile,
    /// The inspection failed; the error's text.
    Failed(String),
}

/// The binary `HERDR_REMOTE_BINARY` names, if set: it must be a non-empty
/// path to a regular file.
pub open spec fn spec_override_binary_path(value: Option<Seq<char>>, inspection: PathInspection) -> Result<Option<Seq<char>>, Seq<char>> {
    match value {
        None => Ok(None),
        Some(v) => if v.len() == 0 {
            Err(REMOTE_BINARY_ENV_VAR@ + " must not be empty"@)
        } else {
            match inspection {
                PathInspection::Failed(e) => Err("failed to inspect "@ + REMOTE_BINARY_ENV_VAR@ + " path "@ + v + ": "@ + e@),
                PathInspection::NotFile => Err(REMOTE_BINARY_ENV_VAR@ + " path is not a file: "@ + v),
                PathInspection::File => Ok(Some(v)),
            }
        },
    }
}

/// Checks the binary `HERDR_REMOTE_BINARY` names, given its value and what
/// inspecting that path found.
pub fn override_binary_path(value: Option<&str>, inspection: &PathInspection) -> (r: Result<Option<String>, String>)
    ensures
        match spec_override_binary_path(
            match value {
                Some(v) => Some(v@),
                None => None,
            },
            *inspection,
        ) {
            Ok(p) => r matches Ok(x) && opt_view(x) == p,
            Err(e) => r matches Err(x) && x@ == e,
        },
{
    let v = match value {
        None => return Ok(None),
        Some(v) => v,
    };
    if v.is_empty() {
        let mut m = owned(REMOTE_BINARY_ENV_VAR);
        push_str(&mut m, " must not be empty");
        return Err(m);
    }
    match inspection {
        PathInspection::Failed(e) => {
            let mut m = owned("failed to inspect ");
            push_str(&mut m, REMOTE_BINARY_ENV_VAR);
            push_str(&mut m, " path ");
            push_str(&mut m, v);
            push_str(&mut m, ": ");
            push_str(&mut m, e.as_str());
            Err(m)
        },
        PathInspection::NotFile => {
            let mut m = owned(REMOTE_BINARY_ENV_VAR);
            push_str(&mut m, " path is not a file: ");
            push_str(&mut m, v);
            Err(m)
        },
        PathInspection::File => Ok(Some(owned(v))),
    }
}

/// The error for a remote command that failed: its standard error when it
/// printed any, else its exit status.
pub open spec fn spec_command_failed(context: Seq<char>, stderr: Seq<char>, status: Seq<char>) -> Seq<char> {
    if trim(stderr).len() == 0 {
        context + ": "@ + status
    } else {
        context + ": "@ + trim(stderr)
    }
}

/// The message for a remote command that failed.
pub fn command_failed_message(context: &str, stderr: &str, status: &str) -> (r: String)
    ensures
        r@ == spec_command_failed(context@, stderr@, status@),
{
    let t = trim_str(stderr);
    let mut m = owned(context);
    push_str(&mut m, ": ");
    if t.as_str().is_empty() {
        push_str(&mut m, status);
    } else {
        push_str(&mut m, t.as_str());
    }
    m
}

/// Why an install cannot be approved without a terminal.
pub fn not_interactive_message(shell_path: &str) -> (r: String)
    ensures
        r@ == "matching remote herdr "@ + CURRENT_VERSION@ + " is not installed at "@ + shell_path@
            + "; run from an interactive terminal to approve installation"@,
{
    let mut m = owned("matching remote herdr ");
    push_str(&mut m, CURRENT_VERSION);
    push_str(&mut m, " is not installed at ");
    push_str(&mut m, shell_path);
    push_str(&mut m, "; run from an interactive terminal to approve installation");
    m
}

/// The two lines of the install prompt: what is missing where, and the
/// question.
pub fn install_prompt(target: &str, remote_herdr: &RemoteHerdr, source_description: &str) -> (r: (String, String))
    ensures
        r.0@ == "matching herdr "@ + CURRENT_VERSION@ + " is not installed on "@ + target@ + " for "@
            + remote_herdr.platform.spec_asset_key() + "."@,
        r.1@ == "Install "@ + source_description@ + " to "@ + remote_herdr.shell_path@ + "? [Y/n] "@,
{
    let mut a = owned("matching herdr ");
    push_str(&mut a, CURRENT_VERSION);
    push_str(&mut a, " is not installed on ");
    push_str(&mut a, target);
    push_str(&mut a, " for ");
    let k = remote_herdr.platform.asset_key();
    push_str(&mut a, k.as_str());
    push_str(&mut a, ".");
    let mut b = owned("Install ");
    push_str(&mut b, source_description);
    push_str(&mut b, " to ");
    push_str(&mut b, remote_herdr.shell_path.as_str());
    push_str(&mut b, "? [Y/n] ");
    (a, b)
}

/// The error when the installed binary does not report this version.
pub fn installed_version_mismatch(shell_path: &str) -> (r: String)
    ensures
        r@ == "installed remote herdr at "@ + shell_path@ + ", but it did not report version "@ + CURRENT_VERSION@,
{
    let mut m = owned("installed remote herdr at ");
    push_str(&mut m, shell_path);
    push_str(&mut m, ", but it did not report version ");
    push_str(&mut m, CURRENT_VERSION);
    m
}

/// The remote check that `~/.local/bin` is on `PATH`.
pub const PATH_CHECK_COMMAND: &'static str = "case \":$PATH:\" in *\":$HOME/.local/bin:\"*) exit 0 ;; *) exit 1 ;; esac";

/// The warning printed when it is not.
pub const PATH_WARNING: &'static str = "herdr: installed remote binary to ~/.local/bin/herdr, but ~/.local/bin is not in the remote PATH";

/// `10^k`.
pub open spec fn pow10(k: nat) -> nat
    decreases k,
{
    if k == 0 { 1 } else { 10 * pow10((k - 1) as nat) }
}

/// A number below `10^k` (`k >= 1`) has at most `k` decimal digits.
proof fn lemma_decimal_len(n: nat, k: nat)
    requires
        k >= 1,
        n < pow10(k),
    ensures
        decimal(n).len() <= k,
    decreases k,
{
    if n >= 10 {
        assert(k >= 2) by {
            if k == 1 {
                assert(pow10(1) == 10 * pow10(0));
            }
        }
        assert(pow10(k) == 10 * pow10((k - 1) as nat));
        assert(n / 10 < pow10((k - 1) as nat)) by (nonlinear_arith)
            requires
                n < 10 * pow10((k - 1) as nat),
        ;
        lemma_decimal_len(n / 10, (k - 1) as nat);
    }
}

/// Every character passes `is_path_safe`.
pub open spec fn all_path_safe(s: Seq<char>) -> bool {
    forall|i: int| 0 <= i < s.len() ==> is_path_safe(#[trigger] s[i])
}

proof fn lemma_trim_dashes_safe(s: Seq<char>)
    requires
        all_path_safe(s),
    ensures
        all_path_safe(trim_start_dashes(s)),
        all_path_safe(trim_end_dashes(s)),
    decreases s.len(),
{
    if s.len() > 0 {
        assert(all_path_safe(s.drop_first())) by {
            assert forall|i: int| 0 <= i < s.drop_first().len() implies is_path_safe(#[trigger] s.drop_first()[i]) by {
                assert(s.drop_first()[i] == s[i + 1]);
            }
        }
        assert(all_path_safe(s.drop_last())) by {
            assert forall|i: int| 0 <= i < s.drop_last().len() implies is_path_safe(#[trigger] s.drop_last()[i]) by {
                assert(s.drop_last()[i] == s[i]);
            }
        }
        lemma_trim_dashes_safe(s.drop_first());
        lemma_trim_dashes_safe(s.drop_last());
    }
}

/// What `sanitize_path_component` keeps is path-safe, at most 32
/// characters long and does not start with `-`; a name that is already
/// such (and does not end with `-`) is kept as it is.
pub proof fn lemma_sanitized_is_path_safe(input: Seq<char>)
    ensures
        all_path_safe(spec_sanitize_path_component(input)),
        spec_sanitize_path_component(input).len() <= 32,
        spec_sanitize_path_component(input).len() > 0 ==> spec_sanitize_path_component(input)[0] != '-',
        input.len() <= 32 && all_path_safe(input) && (input.len() > 0 ==> input[0] != '-' && input.last() != '-')
            ==> spec_sanitize_path_component(input) == input,
{
    let mapped = input.map_values(|c: char| if is_path_safe(c) { c } else { '-' });
    assert(all_path_safe(mapped));
    lemma_trim_dashes_safe(mapped);
    lemma_trim_dashes_safe(trim_start_dashes(mapped));
    let t1 = trim_start_dashes(mapped);
    let t = trim_end_dashes(t1);
    lemma_trim_start_head(mapped);
    lemma_trim_end_prefix(t1);
    if t.len() > 0 {
        assert(t[0] == t1[0]);
    }
    if input.len() <= 32 && all_path_safe(input) && (input.len() > 0 ==> input[0] != '-' && input.last() != '-') {
        assert(mapped =~= input);
        assert(t1 == input);
        assert(t == input);
    }
}

proof fn lemma_trim_start_head(s: Seq<char>)
    ensures
        trim_start_dashes(s).len() > 0 ==> trim_start_dashes(s)[0] != '-',
    decreases s.len(),
{
    if s.len() > 0 && s[0] == '-' {
        lemma_trim_start_head(s.drop_first());
    }
}

proof fn lemma_trim_end_prefix(s: Seq<char>)
    ensures
        trim_end_dashes(s).len() <= s.len(),
        trim_end_dashes(s) =~= s.subrange(0, trim_end_dashes(s).len() as int),
    decreases s.len(),
{
    if s.len() > 0 && s.last() == '-' {
        lemma_trim_end_prefix(s.drop_last());
    }
}

/// Path-safe characters are ASCII.
proof fn lemma_path_safe_ascii(s: Seq<char>)
    requires
        all_path_safe(s),
    ensures
        is_ascii_chars(s),
{
    assert forall|i: int| 0 <= i < s.len() implies '\0' <= #[trigger] s[i] <= '\u{7f}' by {
        assert(is_path_safe(s[i]));
    }
}

proof fn lemma_hex16_ascii(n: u64)
    ensures
        is_ascii_chars(hex16(n)),
        hex16(n).len() == 16,
{
    assert forall|i: int| 0 <= i < 16 implies '\0' <= #[trigger] hex16(n)[i] <= '\u{7f}' by {
        let sh: u64 = (60 - 4 * i) as u64;
        assert((n >> sh) & 15 <= 15) by (bit_vector);
    }
}

/// The local bridge socket path always fits in `sun_path`. It is the
/// readable name in the temporary directory whenever that fits; otherwise
/// the short name `herdr-r-<pid>-…`, in the temporary directory, or in
/// `/tmp` only when it does not fit in the temporary directory.
pub proof fn lemma_socket_path_fits(tmpdir: Seq<char>, pid: u32, target: Seq<char>, session: Seq<char>)
    ensures
        spec_fits_socket_path(spec_local_forward_socket_path(tmpdir, pid, target, session)),
        ({
            let r = spec_local_forward_socket_path(tmpdir, pid, target, session);
            let readable = join_path(tmpdir, readable_socket_name(pid, target, session));
            let short = short_socket_name(pid, target, session);
            &&& spec_fits_socket_path(readable) ==> r == readable
            &&& !spec_fits_socket_path(readable) ==> ("herdr-r-"@ + decimal(pid as nat) + "-"@).is_prefix_of(short)
                && (r == join_path(tmpdir, short) || (r == join_path("/tmp"@, short) && !spec_fits_socket_path(
                join_path(tmpdir, short),
            )))
        }),
{
    let name = short_socket_name(pid, target, session);
    let clean = spec_sanitize_path_component(target);
    let prefix = if clean.len() <= 8 { clean } else { clean.take(8) };
    let digits = decimal(pid as nat);
    let hash = spec_short_socket_hash(target, session);
    reveal_strlit("herdr-r-");
    reveal_strlit("-");
    reveal_strlit(".sock");
    reveal_strlit("/tmp");
    reveal_strlit("/");
    lemma_sanitized_is_path_safe(target);
    assert(all_path_safe(prefix));
    lemma_path_safe_ascii(prefix);
    lemma_decimal_digits(pid as nat);
    assert(pow10(10) == 10000000000) by {
        reveal_with_fuel(pow10, 11);
    }
    lemma_decimal_len(pid as nat, 10);
    lemma_hex16_ascii(DefaultHasher::spec_finish(socket_hash_input(target, session)));
    let path = "/tmp"@ + "/"@ + name;
    assert(join_path("/tmp"@, name) == path);
    assert(is_ascii_chars(path)) by {
        assert(is_ascii_chars(digits));
        assert(path =~= "/tmp/herdr-r-"@ + digits + "-"@ + prefix + "-"@ + hash + ".sock"@) by {
            reveal_strlit("/tmp/herdr-r-");
        }
        reveal_strlit("/tmp/herdr-r-");
    }
    is_ascii_chars_encode_utf8(path);
    assert(path.len() <= 54);
}

/// Whether an argument is one of the options the remote launcher reads
/// (and removes): `--remote`, the WebSocket password, fingerprint and
/// identity options, each alone or with `=value`, and `--ws-pubkey-auth`.
pub open spec fn is_launch_option(a: Seq<char>) -> bool {
    ||| a == "--remote"@
    ||| "--remote="@.is_prefix_of(a)
    ||| a == "--password"@
    ||| a == "--ws-password"@
    ||| "--password="@.is_prefix_of(a)
    ||| "--ws-password="@.is_prefix_of(a)
    ||| a == "--fingerprint"@
    ||| a == "--ws-fingerprint"@
    ||| "--fingerprint="@.is_prefix_of(a)
    ||| "--ws-fingerprint="@.is_prefix_of(a)
    ||| a == "--ws-pubkey-auth"@
    ||| a == "--ws-identity"@
    ||| "--ws-identity="@.is_prefix_of(a)
}

/// No argument after the program name is a launcher option.
pub open spec fn no_launch_option(cleaned: Seq<Seq<char>>) -> bool {
    forall|j: int| 1 <= j < cleaned.len() ==> !is_launch_option(#[trigger] cleaned[j])
}

/// `idx` picks `c` out of `a` in order, at positions below `bound`.
pub open spec fn picks(c: Seq<Seq<char>>, a: Seq<Seq<char>>, idx: Seq<int>, bound: int) -> bool {
    &&& idx.len() == c.len()
    &&& forall|k: int| 0 <= k < idx.len() ==> 0 <= #[trigger] idx[k] < bound && idx[k] < a.len() && a[idx[k]] == c[k]
    &&& forall|k: int, l: int| 0 <= k < l < idx.len() ==> #[trigger] idx[k] < #[trigger] idx[l]
}

/// `c` is `a` with some elements left out, the rest in their order.
pub open spec fn is_subsequence_of(c: Seq<Seq<char>>, a: Seq<Seq<char>>) -> bool {
    exists|idx: Seq<int>| picks(c, a, idx, a.len() as int)
}

/// What a remote target read from the arguments looks like: not empty,
/// not an option, and a `http(s)://` URL already turned into `ws(s)://`.
pub open spec fn target_form(t: Seq<char>) -> bool {
    &&& t.len() > 0
    &&& t[0] != '-'
    &&& !"http://"@.is_prefix_of(t)
    &&& !"https://"@.is_prefix_of(t)
}

/// Some argument after the program name is a `--remote` option.
pub open spec fn remote_option_given(args: Seq<Seq<char>>) -> bool {
    exists|j: int| 1 <= j < args.len() && (#[trigger] args[j] == "--remote"@ || "--remote="@.is_prefix_of(args[j]))
}

proof fn lemma_normalized_target_form(v: Seq<char>)
    requires
        spec_validate_remote_target(v) is Ok,
    ensures
        target_form(spec_normalize_ws_url(v)),
{
    reveal_strlit("ws://");
    reveal_strlit("wss://");
    reveal_strlit("http://");
    reveal_strlit("https://");
    let n = spec_normalize_ws_url(v);
    if "http://"@.is_prefix_of(v) || "https://"@.is_prefix_of(v) {
        if "http://"@.is_prefix_of(v) {
            assert(n[0] == "ws://"@[0]);
        } else {
            assert(n[0] == "wss://"@[0]);
        }
        assert(n[0] == 'w');
        assert(!"http://"@.is_prefix_of(n)) by {
            if "http://"@.is_prefix_of(n) {
                assert(n[0] == "http://"@[0]);
            }
        }
        assert(!"https://"@.is_prefix_of(n)) by {
            if "https://"@.is_prefix_of(n) {
                assert(n[0] == "https://"@[0]);
            }
        }
    }
}

proof fn lemma_scan_shape(args: Seq<Seq<char>>, i: int, st: ScanState, idx: Seq<int>)
    requires
        i >= 1,
        st.cleaned.len() >= 1,
        no_launch_option(st.cleaned),
        picks(st.cleaned, args, idx, i),
        st.remote matches Some(t) ==> target_form(t) && remote_option_given(args),
    ensures
        scan_args(args, i, st) matches Ok(r) ==> {
            &&& r.cleaned.len() >= 1
            &&& r.cleaned[0] == st.cleaned[0]
            &&& no_launch_option(r.cleaned)
            &&& is_subsequence_of(r.cleaned, args)
            &&& r.remote matches Some(t) ==> target_form(t) && remote_option_given(args)
        },
    decreases args.len() - i,
{
    if i >= args.len() {
        assert(picks(st.cleaned, args, idx, args.len() as int));
    } else {
        match scan_step(args, i, st) {
            Err(_) => {},
            Ok((two, next)) => {
                let step = i + 1 + (if two { 1int } else { 0int });
                let a = args[i];
                if next.cleaned.len() != st.cleaned.len() {
                    assert(!is_launch_option(a));
                    assert(next.cleaned == st.cleaned.push(a));
                    let idx2 = idx.push(i);
                    assert forall|j: int| 1 <= j < next.cleaned.len() implies !is_launch_option(#[trigger] next.cleaned[j]) by {
                        if j < st.cleaned.len() {
                            assert(next.cleaned[j] == st.cleaned[j]);
                        }
                    }
                    assert(picks(next.cleaned, args, idx2, step)) by {
                        assert forall|k: int, l: int| 0 <= k < l < idx2.len() implies #[trigger] idx2[k] < #[trigger] idx2[l] by {
                            if l < idx.len() {
                            } else {
                                assert(idx2[k] == idx[k]);
                            }
                        }
                    }
                    lemma_scan_shape(args, step, next, idx2);
                } else {
                    assert(next.cleaned == st.cleaned);
                    if next.remote != st.remote {
                        lemma_normalized_target_form(if a == "--remote"@ { args[i + 1] } else { a.skip("--remote="@.len() as int) });
                        assert(args[i] == "--remote"@ || "--remote="@.is_prefix_of(args[i]));
                    }
                    assert(picks(next.cleaned, args, idx, step));
                    lemma_scan_shape(args, step, next, idx);
                }
            },
        }
    }
}

/// Whether an option takes the next argument as its value.
pub open spec fn takes_value(a: Seq<char>) -> bool {
    ||| a == "--remote"@
    ||| a == "--password"@
    ||| a == "--ws-password"@
    ||| a == "--fingerprint"@
    ||| a == "--ws-fingerprint"@
    ||| a == "--ws-identity"@
}

/// Whether some argument from `i` on, read as an option (not as an
/// option's value), is `--remote` or `--remote=…`.
pub open spec fn remote_flag_read(args: Seq<Seq<char>>, i: int) -> bool
    decreases args.len() - i,
{
    if i < 0 || i >= args.len() {
        false
    } else if args[i] == "--remote"@ || "--remote="@.is_prefix_of(args[i]) {
        true
    } else {
        remote_flag_read(args, i + (if takes_value(args[i]) && i + 1 < args.len() { 2int } else { 1int }))
    }
}

proof fn lemma_scan_width(args: Seq<Seq<char>>, i: int, st: ScanState)
    requires
        0 <= i < args.len(),
        scan_step(args, i, st) is Ok,
    ensures
        (scan_step(args, i, st)->Ok_0.0) == (takes_value(args[i]) && i + 1 < args.len()),
{
    reveal_strlit("--remote");
    reveal_strlit("--remote=");
    reveal_strlit("--password");
    reveal_strlit("--ws-password");
    reveal_strlit("--password=");
    reveal_strlit("--ws-password=");
    reveal_strlit("--fingerprint");
    reveal_strlit("--ws-fingerprint");
    reveal_strlit("--fingerprint=");
    reveal_strlit("--ws-fingerprint=");
    reveal_strlit("--ws-pubkey-auth");
    reveal_strlit("--ws-identity");
    let a = args[i];
    if a == "--password"@ || a == "--ws-password"@ {
        lemma_differ_at("--remote="@, a, 2);
    } else if a == "--fingerprint"@ || a == "--ws-fingerprint"@ {
        lemma_differ_at("--remote="@, a, 2);
        lemma_differ_at("--password="@, a, 2);
        if a == "--fingerprint"@ {
            lemma_differ_at("--ws-password"@, a, 2);
            lemma_differ_at("--ws-password="@, a, 2);
        } else {
            lemma_differ_at("--ws-password"@, a, 5);
            lemma_differ_at("--ws-password="@, a, 5);
        }
    } else if a == "--ws-identity"@ {
        lemma_differ_at("--remote="@, a, 2);
        lemma_differ_at("--password="@, a, 2);
        lemma_differ_at("--ws-password"@, a, 5);
        lemma_differ_at("--ws-password="@, a, 5);
        lemma_differ_at("--fingerprint"@, a, 2);
        lemma_differ_at("--fingerprint="@, a, 2);
        lemma_differ_at("--ws-fingerprint="@, a, 5);
    }
}

proof fn lemma_scan_remote_read(args: Seq<Seq<char>>, i: int, st: ScanState)
    requires
        i >= 0,
    ensures
        scan_args(args, i, st) matches Ok(r) ==> (r.remote is Some <==> (st.remote is Some || remote_flag_read(
            args,
            i,
        ))),
    decreases args.len() - i,
{
    if i < args.len() {
        match scan_step(args, i, st) {
            Err(_) => {},
            Ok((two, next)) => {
                let a = args[i];
                let step = i + 1 + (if two { 1int } else { 0int });
                if !(a == "--remote"@ || "--remote="@.is_prefix_of(a)) {
                    assert(next.remote == st.remote);
                    lemma_scan_width(args, i, st);
                    assert(remote_flag_read(args, i) == remote_flag_read(args, step));
                } else {
                    assert(next.remote is Some);
                }
                lemma_scan_remote_read(args, step, next);
            },
        }
    }
}

/// A launch is read exactly when some argument after the program name,
/// read as an option rather than as an option's value, is `--remote` or
/// `--remote=…`.
pub proof fn lemma_extract_remote_given(args: Seq<Seq<char>>)
    ensures
        spec_extract_remote_args(args) matches Ok((_, launch)) ==> (launch is Some <==> remote_flag_read(args, 1)),
{
    let init = ScanState {
        cleaned: if args.len() > 0 { seq![args[0]] } else { seq![] },
        remote: None,
        ws: WsLaunchView::empty(),
    };
    lemma_scan_remote_read(args, 1, init);
}

/// What the remote launcher leaves for the local client: the program name
/// first, then the other arguments in their order with every launcher
/// option (and the value it took) removed. A launch is read only where a
/// `--remote` option was given; its target is not empty, is no option, has
/// `http(s)://` turned into `ws(s)://`, and carries WebSocket settings
/// exactly when it is a WebSocket target.
pub proof fn lemma_extract_remote_args_shape(args: Seq<Seq<char>>)
    ensures
        spec_extract_remote_args(args) matches Ok((cleaned, launch)) ==> {
            &&& args.len() == 0 ==> cleaned.len() == 0
            &&& args.len() > 0 ==> cleaned.len() >= 1 && cleaned[0] == args[0]
            &&& is_subsequence_of(cleaned, args)
            &&& no_launch_option(cleaned)
            &&& launch matches Some(l) ==> {
                &&& target_form(l.target)
                &&& remote_option_given(args)
                &&& (l.ws is Some <==> spec_is_ws_target(l.target))
            }
        },
{
    if args.len() == 0 {
        let e: Seq<int> = seq![];
        assert(picks(seq![], args, e, 0));
    } else {
        let init = ScanState { cleaned: seq![args[0]], remote: None, ws: WsLaunchView::empty() };
        let idx: Seq<int> = seq![0];
        assert(picks(init.cleaned, args, idx, 1));
        lemma_scan_shape(args, 1, init, idx);
    }
}

/// A flag followed by its value, or nothing.
pub open spec fn opt_words(flag: Seq<char>, v: Option<Seq<char>>) -> Seq<Seq<char>> {
    match v {
        Some(x) => seq![flag, x],
        None => Seq::<Seq<char>>::empty(),
    }
}

/// The words of the command that reattaches to a remote session over
/// WebSocket, before quoting.
pub open spec fn reattach_words(program: Seq<char>, url: Seq<char>, ws: WsLaunchView, session: Seq<char>) -> Seq<Seq<char>> {
    let program = if program.len() == 0 { "herdr"@ } else { program };
    seq![program, "--remote"@, url]
        + (if session == DEFAULT_SESSION_NAME@ { Seq::<Seq<char>>::empty() } else { seq!["--session"@, session] })
        + opt_words("--password"@, ws.password)
        + opt_words("--fingerprint"@, ws.fingerprint)
        + (if ws.pubkey_auth { seq!["--ws-pubkey-auth"@] } else { Seq::<Seq<char>>::empty() })
        + opt_words("--ws-identity"@, ws.identity_file)
}

proof fn lemma_differ_at(a: Seq<char>, b: Seq<char>, k: int)
    requires
        0 <= k < a.len(),
        k < b.len(),
        a[k] != b[k],
    ensures
        a != b,
        !a.is_prefix_of(b),
{
    if a.is_prefix_of(b) {
        assert(b.subrange(0, a.len() as int)[k] == b[k]);
    }
}

proof fn lemma_scan_plain(args: Seq<Seq<char>>, i: int, st: ScanState)
    requires
        0 <= i < args.len(),
        args[i].len() > 0 ==> args[i][0] != '-',
    ensures
        scan_args(args, i, st) == scan_args(args, i + 1, ScanState { cleaned: st.cleaned.push(args[i]), ..st }),
{
    reveal_strlit("--remote");
    reveal_strlit("--remote=");
    reveal_strlit("--password");
    reveal_strlit("--ws-password");
    reveal_strlit("--password=");
    reveal_strlit("--ws-password=");
    reveal_strlit("--fingerprint");
    reveal_strlit("--ws-fingerprint");
    reveal_strlit("--fingerprint=");
    reveal_strlit("--ws-fingerprint=");
    reveal_strlit("--ws-pubkey-auth");
    reveal_strlit("--ws-identity");
    reveal_strlit("--ws-identity=");
    let a = args[i];
    if a.len() > 0 {
        lemma_differ_at("--remote"@, a, 0);
        lemma_differ_at("--remote="@, a, 0);
        lemma_differ_at("--password"@, a, 0);
        lemma_differ_at("--ws-password"@, a, 0);
        lemma_differ_at("--password="@, a, 0);
        lemma_differ_at("--ws-password="@, a, 0);
        lemma_differ_at("--fingerprint"@, a, 0);
        lemma_differ_at("--ws-fingerprint"@, a, 0);
        lemma_differ_at("--fingerprint="@, a, 0);
        lemma_differ_at("--ws-fingerprint="@, a, 0);
        lemma_differ_at("--ws-pubkey-auth"@, a, 0);
        lemma_differ_at("--ws-identity"@, a, 0);
        lemma_differ_at("--ws-identity="@, a, 0);
    }
}

proof fn lemma_scan_session_flag(args: Seq<Seq<char>>, i: int, st: ScanState)
    requires
        0 <= i < args.len(),
        args[i] == "--session"@,
    ensures
        scan_args(args, i, st) == scan_args(args, i + 1, ScanState { cleaned: st.cleaned.push(args[i]), ..st }),
{
    reveal_strlit("--remote");
    reveal_strlit("--remote=");
    reveal_strlit("--password");
    reveal_strlit("--ws-password");
    reveal_strlit("--password=");
    reveal_strlit("--ws-password=");
    reveal_strlit("--fingerprint");
    reveal_strlit("--ws-fingerprint");
    reveal_strlit("--fingerprint=");
    reveal_strlit("--ws-fingerprint=");
    reveal_strlit("--ws-pubkey-auth");
    reveal_strlit("--ws-identity");
    reveal_strlit("--ws-identity=");
    reveal_strlit("--session");
    let a = args[i];
    lemma_differ_at("--remote"@, a, 2);
    lemma_differ_at("--remote="@, a, 2);
    lemma_differ_at("--password"@, a, 2);
    lemma_differ_at("--ws-password"@, a, 2);
    lemma_differ_at("--password="@, a, 2);
    lemma_differ_at("--ws-password="@, a, 2);
    lemma_differ_at("--fingerprint"@, a, 2);
    lemma_differ_at("--ws-fingerprint"@, a, 2);
    lemma_differ_at("--fingerprint="@, a, 2);
    lemma_differ_at("--ws-fingerprint="@, a, 2);
    lemma_differ_at("--ws-pubkey-auth"@, a, 2);
    lemma_differ_at("--ws-identity"@, a, 2);
    lemma_differ_at("--ws-identity="@, a, 2);
}

proof fn lemma_scan_password(args: Seq<Seq<char>>, i: int, st: ScanState)
    requires
        0 <= i,
        i + 1 < args.len(),
        args[i] == "--password"@,
    ensures
        scan_args(args, i, st) == scan_args(
            args,
            i + 2,
            ScanState { ws: WsLaunchView { password: Some(args[i + 1]), ..st.ws }, ..st },
        ),
{
    reveal_strlit("--remote");
    reveal_strlit("--remote=");
    reveal_strlit("--password");
    reveal_strlit("--ws-password");
    reveal_strlit("--password=");
    reveal_strlit("--ws-password=");
    reveal_strlit("--fingerprint");
    reveal_strlit("--ws-fingerprint");
    reveal_strlit("--fingerprint=");
    reveal_strlit("--ws-fingerprint=");
    reveal_strlit("--ws-pubkey-auth");
    reveal_strlit("--ws-identity");
    reveal_strlit("--ws-identity=");
    lemma_differ_at("--remote="@, "--password"@, 8);
}

proof fn lemma_scan_fingerprint(args: Seq<Seq<char>>, i: int, st: ScanState)
    requires
        0 <= i,
        i + 1 < args.len(),
        args[i] == "--fingerprint"@,
    ensures
        scan_args(args, i, st) == scan_args(
            args,
            i + 2,
            ScanState { ws: WsLaunchView { fingerprint: Some(args[i + 1]), ..st.ws }, ..st },
        ),
{
    reveal_strlit("--remote");
    reveal_strlit("--remote=");
    reveal_strlit("--password");
    reveal_strlit("--ws-password");
    reveal_strlit("--password=");
    reveal_strlit("--ws-password=");
    reveal_strlit("--fingerprint");
    reveal_strlit("--ws-fingerprint");
    reveal_strlit("--fingerprint=");
    reveal_strlit("--ws-fingerprint=");
    reveal_strlit("--ws-pubkey-auth");
    reveal_strlit("--ws-identity");
    reveal_strlit("--ws-identity=");
    let f = "--fingerprint"@;
    lemma_differ_at("--remote="@, f, 2);
    lemma_differ_at("--ws-password"@, f, 2);
    lemma_differ_at("--password="@, f, 2);
    lemma_differ_at("--ws-password="@, f, 2);
}

proof fn lemma_scan_pubkey_auth(args: Seq<Seq<char>>, i: int, st: ScanState)
    requires
        0 <= i < args.len(),
        args[i] == "--ws-pubkey-auth"@,
    ensures
        scan_args(args, i, st) == scan_args(
            args,
            i + 1,
            ScanState { ws: WsLaunchView { pubkey_auth: true, ..st.ws }, ..st },
        ),
{
    reveal_strlit("--remote");
    reveal_strlit("--remote=");
    reveal_strlit("--password");
    reveal_strlit("--ws-password");
    reveal_strlit("--password=");
    reveal_strlit("--ws-password=");
    reveal_strlit("--fingerprint");
    reveal_strlit("--ws-fingerprint");
    reveal_strlit("--fingerprint=");
    reveal_strlit("--ws-fingerprint=");
    reveal_strlit("--ws-pubkey-auth");
    reveal_strlit("--ws-identity");
    reveal_strlit("--ws-identity=");
    let f = "--ws-pubkey-auth"@;
    lemma_differ_at("--remote="@, f, 2);
    lemma_differ_at("--password="@, f, 2);
    lemma_differ_at("--ws-password="@, f, 6);
    lemma_differ_at("--ws-fingerprint"@, f, 5);
    lemma_differ_at("--fingerprint="@, f, 2);
    lemma_differ_at("--ws-fingerprint="@, f, 5);
}

proof fn lemma_scan_identity(args: Seq<Seq<char>>, i: int, st: ScanState)
    requires
        0 <= i,
        i + 1 < args.len(),
        args[i] == "--ws-identity"@,
    ensures
        scan_args(args, i, st) == scan_args(
            args,
            i + 2,
            ScanState { ws: WsLaunchView { identity_file: Some(args[i + 1]), ..st.ws }, ..st },
        ),
{
    reveal_strlit("--remote");
    reveal_strlit("--remote=");
    reveal_strlit("--password");
    reveal_strlit("--ws-password");
    reveal_strlit("--password=");
    reveal_strlit("--ws-password=");
    reveal_strlit("--fingerprint");
    reveal_strlit("--ws-fingerprint");
    reveal_strlit("--fingerprint=");
    reveal_strlit("--ws-fingerprint=");
    reveal_strlit("--ws-pubkey-auth");
    reveal_strlit("--ws-identity");
    reveal_strlit("--ws-identity=");
    let f = "--ws-identity"@;
    lemma_differ_at("--remote="@, f, 2);
    lemma_differ_at("--ws-password"@, f, 5);
    lemma_differ_at("--password="@, f, 2);
    lemma_differ_at("--ws-password="@, f, 5);
    lemma_differ_at("--fingerprint"@, f, 2);
    lemma_differ_at("--fingerprint="@, f, 2);
    lemma_differ_at("--ws-fingerprint="@, f, 5);
}

proof fn lemma_scan_remote_ws(args: Seq<Seq<char>>, i: int, st: ScanState)
    requires
        0 <= i,
        i + 1 < args.len(),
        args[i] == "--remote"@,
        "ws://"@.is_prefix_of(args[i + 1]) || "wss://"@.is_prefix_of(args[i + 1]),
        st.remote is None,
    ensures
        scan_args(args, i, st) == scan_args(args, i + 2, ScanState { remote: Some(args[i + 1]), ..st }),
{
    reveal_strlit("ws://");
    reveal_strlit("wss://");
    reveal_strlit("http://");
    reveal_strlit("https://");
    let url = args[i + 1];
    assert(url[0] == 'w') by {
        if "ws://"@.is_prefix_of(url) {
            assert(url.subrange(0, 5)[0] == url[0]);
        } else {
            assert(url.subrange(0, 6)[0] == url[0]);
        }
    }
    lemma_differ_at("http://"@, url, 0);
    lemma_differ_at("https://"@, url, 0);
    assert(spec_normalize_ws_url(url) == url);
}

proof fn lemma_scan_eq_password(args: Seq<Seq<char>>, i: int, st: ScanState, v: Seq<char>)
    requires
        0 <= i < args.len(),
        args[i] == "--password="@ + v,
    ensures
        scan_args(args, i, st) == scan_args(
            args,
            i + 1,
            ScanState { ws: WsLaunchView { password: Some(v), ..st.ws }, ..st },
        ),
{
    reveal_strlit("--remote");
    reveal_strlit("--remote=");
    reveal_strlit("--password");
    reveal_strlit("--ws-password");
    reveal_strlit("--password=");
    reveal_strlit("--ws-password=");
    reveal_strlit("--fingerprint");
    reveal_strlit("--ws-fingerprint");
    reveal_strlit("--fingerprint=");
    reveal_strlit("--ws-fingerprint=");
    reveal_strlit("--ws-pubkey-auth");
    reveal_strlit("--ws-identity");
    reveal_strlit("--ws-identity=");
    let a = args[i];
    assert(a.len() >= "--password="@.len());
    assert(a.skip("--password="@.len() as int) =~= v);
    assert(a.subrange(0, "--password="@.len() as int) =~= "--password="@);
    assert forall|k: int| 0 <= k < "--password="@.len() implies a[k] == #[trigger] "--password="@[k] by {}
    assert(a[2] == "--password="@[2]);
    lemma_differ_at("--remote"@, a, 2);
    assert(a[2] == "--password="@[2]);
    lemma_differ_at("--remote="@, a, 2);
    assert(a[2] == "--password="@[2]);
    lemma_differ_at("--ws-password"@, a, 2);
}

proof fn lemma_scan_eq_ws_password(args: Seq<Seq<char>>, i: int, st: ScanState, v: Seq<char>)
    requires
        0 <= i < args.len(),
        args[i] == "--ws-password="@ + v,
    ensures
        scan_args(args, i, st) == scan_args(
            args,
            i + 1,
            ScanState { ws: WsLaunchView { password: Some(v), ..st.ws }, ..st },
        ),
{
    reveal_strlit("--remote");
    reveal_strlit("--remote=");
    reveal_strlit("--password");
    reveal_strlit("--ws-password");
    reveal_strlit("--password=");
    reveal_strlit("--ws-password=");
    reveal_strlit("--fingerprint");
    reveal_strlit("--ws-fingerprint");
    reveal_strlit("--fingerprint=");
    reveal_strlit("--ws-fingerprint=");
    reveal_strlit("--ws-pubkey-auth");
    reveal_strlit("--ws-identity");
    reveal_strlit("--ws-identity=");
    let a = args[i];
    assert(a.len() >= "--ws-password="@.len());
    assert(a.skip("--ws-password="@.len() as int) =~= v);
    assert(a.subrange(0, "--ws-password="@.len() as int) =~= "--ws-password="@);
    assert forall|k: int| 0 <= k < "--ws-password="@.len() implies a[k] == #[trigger] "--ws-password="@[k] by {}
    assert(a[2] == "--ws-password="@[2]);
    lemma_differ_at("--remote"@, a, 2);
    assert(a[2] == "--ws-password="@[2]);
    lemma_differ_at("--remote="@, a, 2);
    assert(a[2] == "--ws-password="@[2]);
    lemma_differ_at("--password"@, a, 2);
    assert(a[2] == "--ws-password="@[2]);
    lemma_differ_at("--password="@, a, 2);
}

proof fn lemma_scan_eq_fingerprint(args: Seq<Seq<char>>, i: int, st: ScanState, v: Seq<char>)
    requires
        0 <= i < args.len(),
        args[i] == "--fingerprint="@ + v,
    ensures
        scan_args(args, i, st) == scan_args(
            args,
            i + 1,
            ScanState { ws: WsLaunchView { fingerprint: Some(v), ..st.ws }, ..st },
        ),
{
    reveal_strlit("--remote");
    reveal_strlit("--remote=");
    reveal_strlit("--password");
    reveal_strlit("--ws-password");
    reveal_strlit("--password=");
    reveal_strlit("--ws-password=");
    reveal_strlit("--fingerprint");
    reveal_strlit("--ws-fingerprint");
    reveal_strlit("--fingerprint=");
    reveal_strlit("--ws-fingerprint=");
    reveal_strlit("--ws-pubkey-auth");
    reveal_strlit("--ws-identity");
    reveal_strlit("--ws-identity=");
    let a = args[i];
    assert(a.len() >= "--fingerprint="@.len());
    assert(a.skip("--fingerprint="@.len() as int) =~= v);
    assert(a.subrange(0, "--fingerprint="@.len() as int) =~= "--fingerprint="@);
    assert forall|k: int| 0 <= k < "--fingerprint="@.len() implies a[k] == #[trigger] "--fingerprint="@[k] by {}
    assert(a[2] == "--fingerprint="@[2]);
    lemma_differ_at("--remote"@, a, 2);
    assert(a[2] == "--fingerprint="@[2]);
    lemma_differ_at("--remote="@, a, 2);
    assert(a[2] == "--fingerprint="@[2]);
    lemma_differ_at("--password"@, a, 2);
    assert(a[2] == "--fingerprint="@[2]);
    lemma_differ_at("--ws-password"@, a, 2);
    assert(a[2] == "--fingerprint="@[2]);
    lemma_differ_at("--password="@, a, 2);
    assert(a[2] == "--fingerprint="@[2]);
    lemma_differ_at("--ws-password="@, a, 2);
    assert(a[2] == "--fingerprint="@[2]);
    lemma_differ_at("--ws-fingerprint"@, a, 2);
}

proof fn lemma_scan_eq_ws_fingerprint(args: Seq<Seq<char>>, i: int, st: ScanState, v: Seq<char>)
    requires
        0 <= i < args.len(),
        args[i] == "--ws-fingerprint="@ + v,
    ensures
        scan_args(args, i, st) == scan_args(
            args,
            i + 1,
            ScanState { ws: WsLaunchView { fingerprint: Some(v), ..st.ws }, ..st },
        ),
{
    reveal_strlit("--remote");
    reveal_strlit("--remote=");
    reveal_strlit("--password");
    reveal_strlit("--ws-password");
    reveal_strlit("--password=");
    reveal_strlit("--ws-password=");
    reveal_strlit("--fingerprint");
    reveal_strlit("--ws-fingerprint");
    reveal_strlit("--fingerprint=");
    reveal_strlit("--ws-fingerprint=");
    reveal_strlit("--ws-pubkey-auth");
    reveal_strlit("--ws-identity");
    reveal_strlit("--ws-identity=");
    let a = args[i];
    assert(a.len() >= "--ws-fingerprint="@.len());
    assert(a.skip("--ws-fingerprint="@.len() as int) =~= v);
    assert(a.subrange(0, "--ws-fingerprint="@.len() as int) =~= "--ws-fingerprint="@);
    assert forall|k: int| 0 <= k < "--ws-fingerprint="@.len() implies a[k] == #[trigger] "--ws-fingerprint="@[k] by {}
    assert(a[2] == "--ws-fingerprint="@[2]);
    lemma_differ_at("--remote"@, a, 2);
    assert(a[2] == "--ws-fingerprint="@[2]);
    lemma_differ_at("--remote="@, a, 2);
    assert(a[2] == "--ws-fingerprint="@[2]);
    lemma_differ_at("--password"@, a, 2);
    assert(a[5] == "--ws-fingerprint="@[5]);
    lemma_differ_at("--ws-password"@, a, 5);
    assert(a[2] == "--ws-fingerprint="@[2]);
    lemma_differ_at("--password="@, a, 2);
    assert(a[5] == "--ws-fingerprint="@[5]);
    lemma_differ_at("--ws-password="@, a, 5);
    assert(a[2] == "--ws-fingerprint="@[2]);
    lemma_differ_at("--fingerprint"@, a, 2);
    assert(a[2] == "--ws-fingerprint="@[2]);
    lemma_differ_at("--fingerprint="@, a, 2);
}

proof fn lemma_scan_eq_ws_identity(args: Seq<Seq<char>>, i: int, st: ScanState, v: Seq<char>)
    requires
        0 <= i < args.len(),
        args[i] == "--ws-identity="@ + v,
    ensures
        scan_args(args, i, st) == scan_args(
            args,
            i + 1,
            ScanState { ws: WsLaunchView { identity_file: Some(v), ..st.ws }, ..st },
        ),
{
    reveal_strlit("--remote");
    reveal_strlit("--remote=");
    reveal_strlit("--password");
    reveal_strlit("--ws-password");
    reveal_strlit("--password=");
    reveal_strlit("--ws-password=");
    reveal_strlit("--fingerprint");
    reveal_strlit("--ws-fingerprint");
    reveal_strlit("--fingerprint=");
    reveal_strlit("--ws-fingerprint=");
    reveal_strlit("--ws-pubkey-auth");
    reveal_strlit("--ws-identity");
    reveal_strlit("--ws-identity=");
    let a = args[i];
    assert(a.len() >= "--ws-identity="@.len());
    assert(a.skip("--ws-identity="@.len() as int) =~= v);
    assert(a.subrange(0, "--ws-identity="@.len() as int) =~= "--ws-identity="@);
    assert forall|k: int| 0 <= k < "--ws-identity="@.len() implies a[k] == #[trigger] "--ws-identity="@[k] by {}
    assert(a[2] == "--ws-identity="@[2]);
    lemma_differ_at("--remote"@, a, 2);
    assert(a[2] == "--ws-identity="@[2]);
    lemma_differ_at("--remote="@, a, 2);
    assert(a[2] == "--ws-identity="@[2]);
    lemma_differ_at("--password"@, a, 2);
    assert(a[5] == "--ws-identity="@[5]);
    lemma_differ_at("--ws-password"@, a, 5);
    assert(a[2] == "--ws-identity="@[2]);
    lemma_differ_at("--password="@, a, 2);
    assert(a[5] == "--ws-identity="@[5]);
    lemma_differ_at("--ws-password="@, a, 5);
    assert(a[2] == "--ws-identity="@[2]);
    lemma_differ_at("--fingerprint"@, a, 2);
    assert(a[5] == "--ws-identity="@[5]);
    lemma_differ_at("--ws-fingerprint"@, a, 5);
    assert(a[2] == "--ws-identity="@[2]);
    lemma_differ_at("--fingerprint="@, a, 2);
    assert(a[5] == "--ws-identity="@[5]);
    lemma_differ_at("--ws-fingerprint="@, a, 5);
    assert(a[5] == "--ws-identity="@[5]);
    lemma_differ_at("--ws-pubkey-auth"@, a, 5);
}

proof fn lemma_scan_space_ws_password(args: Seq<Seq<char>>, i: int, st: ScanState)
    requires
        0 <= i,
        i + 1 < args.len(),
        args[i] == "--ws-password"@,
    ensures
        scan_args(args, i, st) == scan_args(
            args,
            i + 2,
            ScanState { ws: WsLaunchView { password: Some(args[i + 1]), ..st.ws }, ..st },
        ),
{
    reveal_strlit("--remote");
    reveal_strlit("--remote=");
    reveal_strlit("--password");
    reveal_strlit("--ws-password");
    reveal_strlit("--password=");
    reveal_strlit("--ws-password=");
    reveal_strlit("--fingerprint");
    reveal_strlit("--ws-fingerprint");
    reveal_strlit("--fingerprint=");
    reveal_strlit("--ws-fingerprint=");
    reveal_strlit("--ws-pubkey-auth");
    reveal_strlit("--ws-identity");
    reveal_strlit("--ws-identity=");
    let a = args[i];
    assert(a[2] == "--ws-password"@[2]);
    lemma_differ_at("--remote="@, a, 2);
}

proof fn lemma_scan_space_ws_fingerprint(args: Seq<Seq<char>>, i: int, st: ScanState)
    requires
        0 <= i,
        i + 1 < args.len(),
        args[i] == "--ws-fingerprint"@,
    ensures
        scan_args(args, i, st) == scan_args(
            args,
            i + 2,
            ScanState { ws: WsLaunchView { fingerprint: Some(args[i + 1]), ..st.ws }, ..st },
        ),
{
    reveal_strlit("--remote");
    reveal_strlit("--remote=");
    reveal_strlit("--password");
    reveal_strlit("--ws-password");
    reveal_strlit("--password=");
    reveal_strlit("--ws-password=");
    reveal_strlit("--fingerprint");
    reveal_strlit("--ws-fingerprint");
    reveal_strlit("--fingerprint=");
    reveal_strlit("--ws-fingerprint=");
    reveal_strlit("--ws-pubkey-auth");
    reveal_strlit("--ws-identity");
    reveal_strlit("--ws-identity=");
    let a = args[i];
    assert(a[2] == "--ws-fingerprint"@[2]);
    lemma_differ_at("--remote="@, a, 2);
    assert(a[2] == "--ws-fingerprint"@[2]);
    lemma_differ_at("--password="@, a, 2);
    assert(a[5] == "--ws-fingerprint"@[5]);
    lemma_differ_at("--ws-password="@, a, 5);
}

proof fn lemma_launch_after_remote(args: Seq<Seq<char>>, p: Seq<char>, url: Seq<char>, w: WsLaunchView)
    requires
        args.len() >= 3,
        args[0] == p,
        args[1] == "--remote"@,
        args[2] == url,
        "ws://"@.is_prefix_of(url) || "wss://"@.is_prefix_of(url),
        scan_args(args, 3, ScanState { cleaned: seq![p], remote: Some(url), ws: WsLaunchView::empty() })
            == Ok::<ScanState, Seq<char>>(ScanState { cleaned: seq![p], remote: Some(url), ws: w }),
    ensures
        spec_extract_remote_args(args) == Ok::<(Seq<Seq<char>>, Option<RemoteLaunchView>), Seq<char>>(
            (seq![p], Some(RemoteLaunchView { target: url, ws: Some(w) })),
        ),
{
    let st0 = ScanState { cleaned: seq![p], remote: None, ws: WsLaunchView::empty() };
    lemma_scan_remote_ws(args, 1, st0);
    assert(spec_is_ws_target(url));
}

/// Each launcher option written `--flag=value` sets the same field as
/// `--flag value`, to that value, and nothing else: a WebSocket launch read
/// from `[p, --remote, url, option]` has exactly that one setting.
pub proof fn lemma_ws_flag_forms(p: Seq<char>, url: Seq<char>, v: Seq<char>)
    requires
        "ws://"@.is_prefix_of(url) || "wss://"@.is_prefix_of(url),
    ensures
        spec_extract_remote_args(seq![p, "--remote"@, url, "--password="@ + v]) == Ok::<(Seq<Seq<char>>, Option<RemoteLaunchView>), Seq<char>>((seq![p], Some(RemoteLaunchView { target: url, ws: Some(WsLaunchView { password: Some(v), ..WsLaunchView::empty() }) }))),
        spec_extract_remote_args(seq![p, "--remote"@, url, "--password"@, v]) == Ok::<(Seq<Seq<char>>, Option<RemoteLaunchView>), Seq<char>>((seq![p], Some(RemoteLaunchView { target: url, ws: Some(WsLaunchView { password: Some(v), ..WsLaunchView::empty() }) }))),
        spec_extract_remote_args(seq![p, "--remote"@, url, "--ws-password="@ + v]) == Ok::<(Seq<Seq<char>>, Option<RemoteLaunchView>), Seq<char>>((seq![p], Some(RemoteLaunchView { target: url, ws: Some(WsLaunchView { password: Some(v), ..WsLaunchView::empty() }) }))),
        spec_extract_remote_args(seq![p, "--remote"@, url, "--ws-password"@, v]) == Ok::<(Seq<Seq<char>>, Option<RemoteLaunchView>), Seq<char>>((seq![p], Some(RemoteLaunchView { target: url, ws: Some(WsLaunchView { password: Some(v), ..WsLaunchView::empty() }) }))),
        spec_extract_remote_args(seq![p, "--remote"@, url, "--fingerprint="@ + v]) == Ok::<(Seq<Seq<char>>, Option<RemoteLaunchView>), Seq<char>>((seq![p], Some(RemoteLaunchView { target: url, ws: Some(WsLaunchView { fingerprint: Some(v), ..WsLaunchView::empty() }) }))),
        spec_extract_remote_args(seq![p, "--remote"@, url, "--fingerprint"@, v]) == Ok::<(Seq<Seq<char>>, Option<RemoteLaunchView>), Seq<char>>((seq![p], Some(RemoteLaunchView { target: url, ws: Some(WsLaunchView { fingerprint: Some(v), ..WsLaunchView::empty() }) }))),
        spec_extract_remote_args(seq![p, "--remote"@, url, "--ws-fingerprint="@ + v]) == Ok::<(Seq<Seq<char>>, Option<RemoteLaunchView>), Seq<char>>((seq![p], Some(RemoteLaunchView { target: url, ws: Some(WsLaunchView { fingerprint: Some(v), ..WsLaunchView::empty() }) }))),
        spec_extract_remote_args(seq![p, "--remote"@, url, "--ws-fingerprint"@, v]) == Ok::<(Seq<Seq<char>>, Option<RemoteLaunchView>), Seq<char>>((seq![p], Some(RemoteLaunchView { target: url, ws: Some(WsLaunchView { fingerprint: Some(v), ..WsLaunchView::empty() }) }))),
        spec_extract_remote_args(seq![p, "--remote"@, url, "--ws-identity="@ + v]) == Ok::<(Seq<Seq<char>>, Option<RemoteLaunchView>), Seq<char>>((seq![p], Some(RemoteLaunchView { target: url, ws: Some(WsLaunchView { identity_file: Some(v), ..WsLaunchView::empty() }) }))),
        spec_extract_remote_args(seq![p, "--remote"@, url, "--ws-identity"@, v]) == Ok::<(Seq<Seq<char>>, Option<RemoteLaunchView>), Seq<char>>((seq![p], Some(RemoteLaunchView { target: url, ws: Some(WsLaunchView { identity_file: Some(v), ..WsLaunchView::empty() }) }))),
{
    {
        let args = seq![p, "--remote"@, url, "--password="@ + v];
        lemma_scan_eq_password(args, 3, ScanState { cleaned: seq![p], remote: Some(url), ws: WsLaunchView::empty() }, v);
        assert(scan_args(args, 4, ScanState { cleaned: seq![p], remote: Some(url), ws: WsLaunchView { password: Some(v), ..WsLaunchView::empty() } }) == Ok::<ScanState, Seq<char>>(ScanState { cleaned: seq![p], remote: Some(url), ws: WsLaunchView { password: Some(v), ..WsLaunchView::empty() } }));
        lemma_launch_after_remote(args, p, url, WsLaunchView { password: Some(v), ..WsLaunchView::empty() });
    }
    {
        let args = seq![p, "--remote"@, url, "--password"@, v];
        lemma_scan_password(args, 3, ScanState { cleaned: seq![p], remote: Some(url), ws: WsLaunchView::empty() });
        assert(scan_args(args, 5, ScanState { cleaned: seq![p], remote: Some(url), ws: WsLaunchView { password: Some(v), ..WsLaunchView::empty() } }) == Ok::<ScanState, Seq<char>>(ScanState { cleaned: seq![p], remote: Some(url), ws: WsLaunchView { password: Some(v), ..WsLaunchView::empty() } }));
        lemma_launch_after_remote(args, p, url, WsLaunchView { password: Some(v), ..WsLaunchView::empty() });
    }
    {
        let args = seq![p, "--remote"@, url, "--ws-password="@ + v];
        lemma_scan_eq_ws_password(args, 3, ScanState { cleaned: seq![p], remote: Some(url), ws: WsLaunchView::empty() }, v);
        assert(scan_args(args, 4, ScanState { cleaned: seq![p], remote: Some(url), ws: WsLaunchView { password: Some(v), ..WsLaunchView::empty() } }) == Ok::<ScanState, Seq<char>>(ScanState { cleaned: seq![p], remote: Some(url), ws: WsLaunchView { password: Some(v), ..WsLaunchView::empty() } }));
        lemma_launch_after_remote(args, p, url, WsLaunchView { password: Some(v), ..WsLaunchView::empty() });
    }
    {
        let args = seq![p, "--remote"@, url, "--ws-password"@, v];
        lemma_scan_space_ws_password(args, 3, ScanState { cleaned: seq![p], remote: Some(url), ws: WsLaunchView::empty() });
        assert(scan_args(args, 5, ScanState { cleaned: seq![p], remote: Some(url), ws: WsLaunchView { password: Some(v), ..WsLaunchView::empty() } }) == Ok::<ScanState, Seq<char>>(ScanState { cleaned: seq![p], remote: Some(url), ws: WsLaunchView { password: Some(v), ..WsLaunchView::empty() } }));
        lemma_launch_after_remote(args, p, url, WsLaunchView { password: Some(v), ..WsLaunchView::empty() });
    }
    {
        let args = seq![p, "--remote"@, url, "--fingerprint="@ + v];
        lemma_scan_eq_fingerprint(args, 3, ScanState { cleaned: seq![p], remote: Some(url), ws: WsLaunchView::empty() }, v);
        assert(scan_args(args, 4, ScanState { cleaned: seq![p], remote: Some(url), ws: WsLaunchView { fingerprint: Some(v), ..WsLaunchView::empty() } }) == Ok::<ScanState, Seq<char>>(ScanState { cleaned: seq![p], remote: Some(url), ws: WsLaunchView { fingerprint: Some(v), ..WsLaunchView::empty() } }));
        lemma_launch_after_remote(args, p, url, WsLaunchView { fingerprint: Some(v), ..WsLaunchView::empty() });
    }
    {
        let args = seq![p, "--remote"@, url, "--fingerprint"@, v];
        lemma_scan_fingerprint(args, 3, ScanState { cleaned: seq![p], remote: Some(url), ws: WsLaunchView::empty() });
        assert(scan_args(args, 5, ScanState { cleaned: seq![p], remote: Some(url), ws: WsLaunchView { fingerprint: Some(v), ..WsLaunchView::empty() } }) == Ok::<ScanState, Seq<char>>(ScanState { cleaned: seq![p], remote: Some(url), ws: WsLaunchView { fingerprint: Some(v), ..WsLaunchView::empty() } }));
        lemma_launch_after_remote(args, p, url, WsLaunchView { fingerprint: Some(v), ..WsLaunchView::empty() });
    }
    {
        let args = seq![p, "--remote"@, url, "--ws-fingerprint="@ + v];
        lemma_scan_eq_ws_fingerprint(args, 3, ScanState { cleaned: seq![p], remote: Some(url), ws: WsLaunchView::empty() }, v);
        assert(scan_args(args, 4, ScanState { cleaned: seq![p], remote: Some(url), ws: WsLaunchView { fingerprint: Some(v), ..WsLaunchView::empty() } }) == Ok::<ScanState, Seq<char>>(ScanState { cleaned: seq![p], remote: Some(url), ws: WsLaunchView { fingerprint: Some(v), ..WsLaunchView::empty() } }));
        lemma_launch_after_remote(args, p, url, WsLaunchView { fingerprint: Some(v), ..WsLaunchView::empty() });
    }
    {
        let args = seq![p, "--remote"@, url, "--ws-fingerprint"@, v];
        lemma_scan_space_ws_fingerprint(args, 3, ScanState { cleaned: seq![p], remote: Some(url), ws: WsLaunchView::empty() });
        assert(scan_args(args, 5, ScanState { cleaned: seq![p], remote: Some(url), ws: WsLaunchView { fingerprint: Some(v), ..WsLaunchView::empty() } }) == Ok::<ScanState, Seq<char>>(ScanState { cleaned: seq![p], remote: Some(url), ws: WsLaunchView { fingerprint: Some(v), ..WsLaunchView::empty() } }));
        lemma_launch_after_remote(args, p, url, WsLaunchView { fingerprint: Some(v), ..WsLaunchView::empty() });
    }
    {
        let args = seq![p, "--remote"@, url, "--ws-identity="@ + v];
        lemma_scan_eq_ws_identity(args, 3, ScanState { cleaned: seq![p], remote: Some(url), ws: WsLaunchView::empty() }, v);
        assert(scan_args(args, 4, ScanState { cleaned: seq![p], remote: Some(url), ws: WsLaunchView { identity_file: Some(v), ..WsLaunchView::empty() } }) == Ok::<ScanState, Seq<char>>(ScanState { cleaned: seq![p], remote: Some(url), ws: WsLaunchView { identity_file: Some(v), ..WsLaunchView::empty() } }));
        lemma_launch_after_remote(args, p, url, WsLaunchView { identity_file: Some(v), ..WsLaunchView::empty() });
    }
    {
        let args = seq![p, "--remote"@, url, "--ws-identity"@, v];
        lemma_scan_identity(args, 3, ScanState { cleaned: seq![p], remote: Some(url), ws: WsLaunchView::empty() });
        assert(scan_args(args, 5, ScanState { cleaned: seq![p], remote: Some(url), ws: WsLaunchView { identity_file: Some(v), ..WsLaunchView::empty() } }) == Ok::<ScanState, Seq<char>>(ScanState { cleaned: seq![p], remote: Some(url), ws: WsLaunchView { identity_file: Some(v), ..WsLaunchView::empty() } }));
        lemma_launch_after_remote(args, p, url, WsLaunchView { identity_file: Some(v), ..WsLaunchView::empty() });
    }
}

/// `--ws-pubkey-auth` turns on public-key authentication and sets nothing
/// else; `--remote=url` reads the same launch as `--remote url`.
pub proof fn lemma_ws_switch_and_remote_forms(p: Seq<char>, url: Seq<char>)
    requires
        "ws://"@.is_prefix_of(url) || "wss://"@.is_prefix_of(url),
    ensures
        spec_extract_remote_args(seq![p, "--remote"@, url, "--ws-pubkey-auth"@]) == Ok::<
            (Seq<Seq<char>>, Option<RemoteLaunchView>),
            Seq<char>,
        >((seq![p], Some(RemoteLaunchView { target: url, ws: Some(WsLaunchView { pubkey_auth: true, ..WsLaunchView::empty() }) }))),
        spec_extract_remote_args(seq![p, "--remote="@ + url]) == spec_extract_remote_args(seq![p, "--remote"@, url]),
        spec_extract_remote_args(seq![p, "--remote"@, url]) == Ok::<(Seq<Seq<char>>, Option<RemoteLaunchView>), Seq<char>>(
            (seq![p], Some(RemoteLaunchView { target: url, ws: Some(WsLaunchView::empty()) })),
        ),
{
    let st1 = ScanState { cleaned: seq![p], remote: Some(url), ws: WsLaunchView::empty() };
    {
        let args = seq![p, "--remote"@, url, "--ws-pubkey-auth"@];
        lemma_scan_pubkey_auth(args, 3, st1);
        let st2 = ScanState { ws: WsLaunchView { pubkey_auth: true, ..WsLaunchView::empty() }, ..st1 };
        assert(scan_args(args, 4, st2) == Ok::<ScanState, Seq<char>>(st2));
        lemma_launch_after_remote(args, p, url, WsLaunchView { pubkey_auth: true, ..WsLaunchView::empty() });
    }
    {
        let args = seq![p, "--remote"@, url];
        assert(scan_args(args, 3, st1) == Ok::<ScanState, Seq<char>>(st1));
        lemma_launch_after_remote(args, p, url, WsLaunchView::empty());
    }
    {
        reveal_strlit("--remote");
        reveal_strlit("--remote=");
        reveal_strlit("ws://");
        reveal_strlit("wss://");
        reveal_strlit("http://");
        reveal_strlit("https://");
        let args = seq![p, "--remote="@ + url];
        let a = args[1];
        assert(a != "--remote"@) by {
            assert(a.len() != "--remote"@.len());
        }
        assert(a.subrange(0, 9) =~= "--remote="@);
        assert(a.skip(9) =~= url);
        assert(url[0] == 'w') by {
            if "ws://"@.is_prefix_of(url) {
                assert(url.subrange(0, 5)[0] == url[0]);
            } else {
                assert(url.subrange(0, 6)[0] == url[0]);
            }
        }
        lemma_differ_at("http://"@, url, 0);
        lemma_differ_at("https://"@, url, 0);
        assert(spec_normalize_ws_url(url) == url);
        let st0 = ScanState { cleaned: seq![p], remote: None, ws: WsLaunchView::empty() };
        assert(scan_step(args, 1, st0) == Ok::<(bool, ScanState), Seq<char>>((false, st1)));
        assert(scan_args(args, 2, st1) == Ok::<ScanState, Seq<char>>(st1));
        assert(spec_is_ws_target(url));
    }
}

/// The command a WebSocket reattach builds is the quoted words of
/// `reattach_words`, joined by spaces; read back by the launcher, those
/// words give the same launch: the target, the WebSocket settings, and the
/// session option left for the local client.
#[verifier::rlimit(60)]
#[verifier::spinoff_prover]
pub proof fn lemma_ws_reattach_round_trip(program: Seq<char>, url: Seq<char>, ws: WsLaunchView, session: Seq<char>)
    requires
        "ws://"@.is_prefix_of(url) || "wss://"@.is_prefix_of(url),
        session.len() > 0 ==> session[0] != '-',
    ensures
        spec_extract_remote_args(reattach_words(program, url, ws, session)) == Ok::<
            (Seq<Seq<char>>, Option<RemoteLaunchView>),
            Seq<char>,
        >(
            (
                {
                    let p = if program.len() == 0 { "herdr"@ } else { program };
                    if session == DEFAULT_SESSION_NAME@ { seq![p] } else { seq![p, "--session"@, session] }
                },
                Some(RemoteLaunchView { target: url, ws: Some(ws) }),
            ),
        ),
{
    let p = if program.len() == 0 { "herdr"@ } else { program };
    let sess = if session == DEFAULT_SESSION_NAME@ { Seq::<Seq<char>>::empty() } else { seq!["--session"@, session] };
    let pw = opt_words("--password"@, ws.password);
    let fp = opt_words("--fingerprint"@, ws.fingerprint);
    let pk = if ws.pubkey_auth { seq!["--ws-pubkey-auth"@] } else { Seq::<Seq<char>>::empty() };
    let id = opt_words("--ws-identity"@, ws.identity_file);
    let w = reattach_words(program, url, ws, session);
    assert(w =~= seq![p, "--remote"@, url] + sess + pw + fp + pk + id);
    let n = w.len() as int;
    // `--remote <url>`
    let st0 = ScanState { cleaned: seq![p], remote: None, ws: WsLaunchView::empty() };
    assert(w[1] == "--remote"@);
    assert(w[2] == url);
    lemma_scan_remote_ws(w, 1, st0);
    let st1 = ScanState { remote: Some(url), ..st0 };
    // the session
    let i2: int = 3 + sess.len() as int;
    let st2 = ScanState { cleaned: st1.cleaned + sess, ..st1 };
    if sess.len() > 0 {
        assert(w[3] == "--session"@);
        assert(w[4] == session);
        lemma_scan_session_flag(w, 3, st1);
        let st1b = ScanState { cleaned: st1.cleaned.push("--session"@), ..st1 };
        lemma_scan_plain(w, 4, st1b);
        assert(st1b.cleaned.push(session) =~= st2.cleaned);
    } else {
        assert(st2.cleaned =~= st1.cleaned);
    }
    assert(scan_args(w, 3, st1) == scan_args(w, i2, st2));
    // `--password <v>`
    let i3: int = i2 + pw.len();
    let st3 = ScanState { ws: WsLaunchView { password: ws.password, ..st2.ws }, ..st2 };
    if ws.password is Some {
        assert(w[i2] == "--password"@);
        assert(w[i2 + 1] == ws.password->0);
        lemma_scan_password(w, i2, st2);
    }
    assert(scan_args(w, i2, st2) == scan_args(w, i3, st3));
    // `--fingerprint <v>`
    let i4: int = i3 + fp.len();
    let st4 = ScanState { ws: WsLaunchView { fingerprint: ws.fingerprint, ..st3.ws }, ..st3 };
    if ws.fingerprint is Some {
        assert(w[i3] == "--fingerprint"@);
        assert(w[i3 + 1] == ws.fingerprint->0);
        lemma_scan_fingerprint(w, i3, st3);
    }
    assert(scan_args(w, i3, st3) == scan_args(w, i4, st4));
    // `--ws-pubkey-auth`
    let i5: int = i4 + pk.len();
    let st5 = ScanState { ws: WsLaunchView { pubkey_auth: ws.pubkey_auth, ..st4.ws }, ..st4 };
    if ws.pubkey_auth {
        assert(w[i4] == "--ws-pubkey-auth"@);
        lemma_scan_pubkey_auth(w, i4, st4);
    }
    assert(scan_args(w, i4, st4) == scan_args(w, i5, st5));
    // `--ws-identity <v>`
    let i6: int = i5 + id.len();
    let st6 = ScanState { ws: WsLaunchView { identity_file: ws.identity_file, ..st5.ws }, ..st5 };
    if ws.identity_file is Some {
        assert(w[i5] == "--ws-identity"@);
        assert(w[i5 + 1] == ws.identity_file->0);
        lemma_scan_identity(w, i5, st5);
    }
    assert(scan_args(w, i5, st5) == scan_args(w, i6, st6));
    assert(i6 == n);
    assert(scan_args(w, n, st6) == Ok::<ScanState, Seq<char>>(st6));
    assert(st6.ws == ws);
    assert(spec_is_ws_target(url));
    if session == DEFAULT_SESSION_NAME@ {
        assert(st6.cleaned =~= seq![p]);
    } else {
        assert(st6.cleaned =~= seq![p, "--session"@, session]);
    }
}

/// Words quoted for a POSIX shell and joined by single spaces.
pub open spec fn sh_join(words: Seq<Seq<char>>) -> Seq<char>
    decreases words.len(),
{
    if words.len() == 0 {
        Seq::<char>::empty()
    } else if words.len() == 1 {
        spec_shell_quote(words[0])
    } else {
        sh_join(words.drop_last()) + " "@ + spec_shell_quote(words.last())
    }
}

proof fn lemma_sh_join_push(words: Seq<Seq<char>>, w: Seq<char>)
    requires
        words.len() > 0,
    ensures
        sh_join(words.push(w)) == sh_join(words) + " "@ + spec_shell_quote(w),
{
    assert(words.push(w).drop_last() =~= words);
}

proof fn lemma_flag_quotes_as_is(l: Seq<char>)
    requires
        l == "--remote"@ || l == "--session"@ || l == "--password"@ || l == "--fingerprint"@ || l
            == "--ws-pubkey-auth"@ || l == "--ws-identity"@,
    ensures
        spec_shell_quote(l) == l,
{
    reveal_strlit("--remote");
    reveal_strlit("--session");
    reveal_strlit("--password");
    reveal_strlit("--fingerprint");
    reveal_strlit("--ws-pubkey-auth");
    reveal_strlit("--ws-identity");
    assert forall|i: int| 0 <= i < l.len() implies is_shell_safe(#[trigger] l[i]) by {
        assert(i == 0 || i == 1 || i == 2 || i == 3 || i == 4 || i == 5 || i == 6 || i == 7 || i == 8 || i == 9
            || i == 10 || i == 11 || i == 12 || i == 13 || i == 14 || i == 15);
    }
}

proof fn lemma_sh_join_flag(words: Seq<Seq<char>>, flag: Seq<char>, v: Option<Seq<char>>)
    requires
        words.len() > 0,
        spec_shell_quote(flag) == flag,
    ensures
        sh_join(words + opt_words(flag, v)) == sh_join(words) + opt_flag(flag, v),
{
    match v {
        Some(x) => {
            assert(words + opt_words(flag, v) =~= words.push(flag).push(x));
            lemma_sh_join_push(words, flag);
            lemma_sh_join_push(words.push(flag), x);
            assert(sh_join(words) + " "@ + flag + " "@ + spec_shell_quote(x) =~= sh_join(words) + opt_flag(flag, v));
        },
        None => {
            assert(words + opt_words(flag, v) =~= words);
            assert(sh_join(words) + opt_flag(flag, v) =~= sh_join(words));
        },
    }
}

/// The command a WebSocket reattach builds is the words of
/// `reattach_words`, each quoted by `shell_quote`, joined by single spaces.
pub proof fn lemma_ws_reattach_command_words(program: Seq<char>, url: Seq<char>, ws: WsLaunchView, session: Seq<char>)
    ensures
        spec_ws_reattach_command(program, url, ws, session) == sh_join(reattach_words(program, url, ws, session)),
{
    reveal_strlit(" ");
    reveal_strlit(" --remote ");
    reveal_strlit(" --session ");
    reveal_strlit(" --ws-pubkey-auth");
    reveal_strlit("--remote");
    reveal_strlit("--session");
    reveal_strlit("--ws-pubkey-auth");
    lemma_flag_quotes_as_is("--remote"@);
    lemma_flag_quotes_as_is("--session"@);
    lemma_flag_quotes_as_is("--password"@);
    lemma_flag_quotes_as_is("--fingerprint"@);
    lemma_flag_quotes_as_is("--ws-pubkey-auth"@);
    lemma_flag_quotes_as_is("--ws-identity"@);
    let p = if program.len() == 0 { "herdr"@ } else { program };
    let w0 = seq![p, "--remote"@, url];
    assert(w0 =~= seq![p].push("--remote"@).push(url));
    lemma_sh_join_push(seq![p], "--remote"@);
    lemma_sh_join_push(seq![p].push("--remote"@), url);
    assert(sh_join(seq![p]) == spec_shell_quote(p));
    assert(sh_join(w0) =~= spec_shell_quote(p) + " --remote "@ + spec_shell_quote(url));
    let sess = if session == DEFAULT_SESSION_NAME@ { Seq::<Seq<char>>::empty() } else { seq!["--session"@, session] };
    let w1 = w0 + sess;
    if session == DEFAULT_SESSION_NAME@ {
        assert(w1 =~= w0);
    } else {
        assert(w1 =~= w0.push("--session"@).push(session));
        lemma_sh_join_push(w0, "--session"@);
        lemma_sh_join_push(w0.push("--session"@), session);
    }
    assert(sh_join(w1) =~= spec_reattach_command(program, url, session));
    let w2 = w1 + opt_words("--password"@, ws.password);
    lemma_sh_join_flag(w1, "--password"@, ws.password);
    let w3 = w2 + opt_words("--fingerprint"@, ws.fingerprint);
    lemma_sh_join_flag(w2, "--fingerprint"@, ws.fingerprint);
    let pk = if ws.pubkey_auth { seq!["--ws-pubkey-auth"@] } else { Seq::<Seq<char>>::empty() };
    let w4 = w3 + pk;
    if ws.pubkey_auth {
        assert(w4 =~= w3.push("--ws-pubkey-auth"@));
        lemma_sh_join_push(w3, "--ws-pubkey-auth"@);
        assert(sh_join(w4) =~= sh_join(w3) + " --ws-pubkey-auth"@);
    } else {
        assert(w4 =~= w3);
        assert(sh_join(w4) =~= sh_join(w3) + Seq::<char>::empty());
    }
    let w5 = w4 + opt_words("--ws-identity"@, ws.identity_file);
    lemma_sh_join_flag(w4, "--ws-identity"@, ws.identity_file);
    assert(reattach_words(program, url, ws, session) =~= w5);
    assert(sh_join(w5) =~= spec_ws_reattach_command(program, url, ws, session));
}

/// A shell reads the command a WebSocket reattach builds as exactly the
/// words of `reattach_words`.
pub proof fn lemma_ws_reattach_command_reads_back(program: Seq<char>, url: Seq<char>, ws: WsLaunchView, session: Seq<char>)
    ensures
        sh_command_words(spec_ws_reattach_command(program, url, ws, session)) == Some(
            reattach_words(program, url, ws, session),
        ),
{
    lemma_ws_reattach_command_words(program, url, ws, session);
    let w = reattach_words(program, url, ws, session);
    assert(w.len() >= 3);
    lemma_sh_join_reads_back(w);
}

/// Normalizing a target keeps whether it is a WebSocket target, turns an
/// HTTP(S) URL into a `ws://`/`wss://` one, and a second normalization
/// changes nothing.
pub proof fn lemma_normalize_ws_url(t: Seq<char>)
    ensures
        spec_is_ws_target(spec_normalize_ws_url(t)) == spec_is_ws_target(t),
        spec_is_ws_target(t) ==> "ws://"@.is_prefix_of(spec_normalize_ws_url(t)) || "wss://"@.is_prefix_of(
            spec_normalize_ws_url(t),
        ),
        spec_normalize_ws_url(spec_normalize_ws_url(t)) == spec_normalize_ws_url(t),
{
    reveal_strlit("ws://");
    reveal_strlit("wss://");
    reveal_strlit("http://");
    reveal_strlit("https://");
    let n = spec_normalize_ws_url(t);
    if "http://"@.is_prefix_of(t) {
        assert(n.subrange(0, 5) =~= "ws://"@);
    } else if "https://"@.is_prefix_of(t) {
        assert(n.subrange(0, 6) =~= "wss://"@);
    }
    if "ws://"@.is_prefix_of(n) {
        assert("ws://"@[0] == 'w');
        assert(n.subrange(0, 5)[0] == n[0]);
        assert(n[0] == 'w');
    }
    if "wss://"@.is_prefix_of(n) {
        assert("wss://"@[0] == 'w');
        assert(n.subrange(0, 6)[0] == n[0]);
        assert(n[0] == 'w');
    }
    if n.len() > 0 && n[0] == 'w' {
        assert(!"http://"@.is_prefix_of(n));
        assert(!"https://"@.is_prefix_of(n));
    }
}

} // verus!
