//! SSH public-key challenge-response authentication over the WebSocket.
//!
//! After the WebSocket handshake the server and the client exchange three
//! messages before the raw byte stream starts:
//!
//! ```text
//! Server -> Client:  [0x10] [32-byte nonce]
//! Client -> Server:  [0x11] [4-byte LE pubkey_len] [OpenSSH public key]
//!                           [4-byte LE sig_len]    [SshSig PEM]
//! Server -> Client:  [0x12]                  (accepted)
//!                    [0x13] [message bytes]  (refused)
//! ```
//!
//! Signatures use the namespace `herdr-ws`.
use vstd::prelude::*;
use vstd::string::*;
use vstd::utf8::{decode_utf8, encode_utf8, valid_utf8};

use crate::remote::{join_path, join_path_exec};
use crate::text::{
    chars_of, lemma_line_or_empty_shorter, line_or_empty, line_or_empty_exec, string_of, trim,
    trim_chars, utf8_str,
};
use crate::ws_transport::ssh::{
    SshPublicKey, fingerprint_sha256, openssh_private_key_parses, openssh_public_key_parses, parse_private_key,
    parse_public_key, parse_signature, public_openssh, sign, signature_pem,
    ssh_fingerprint_sha256, ssh_private_key_public_openssh, ssh_sig_pem, ssh_sig_pem_parses,
    ssh_sign_succeeds, ssh_signature_verifies, verify_signature,
};

verus! {

/// Type byte of the server's challenge.
pub const MSG_CHALLENGE: u8 = 0x10;

/// Type byte of the client's response.
pub const MSG_AUTH_RESPONSE: u8 = 0x11;

/// Type byte of the server's acceptance.
pub const MSG_AUTH_OK: u8 = 0x12;

/// Type byte of the server's refusal.
pub const MSG_AUTH_FAILED: u8 = 0x13;

/// Signing namespace embedded in the SSH signature.
pub const NAMESPACE: &'static str = "herdr-ws";

/// Why authentication failed.
#[derive(Debug, Clone, Copy, PartialEq, Eq, Structural)]
pub enum AuthErrorKind {
    /// The message does not start with the response type byte.
    NotAuthResponse,
    /// Fewer than the two length fields.
    TooShort,
    /// The public key runs past the end, or no room is left for the
    /// signature length.
    Truncated,
    /// The signature runs past the end.
    SignatureTruncated,
    /// The public key is not UTF-8.
    PublicKeyEncoding,
    /// The public key is not an OpenSSH public key.
    PublicKeyParse,
    /// The signature is not UTF-8.
    SignatureEncoding,
    /// The signature is not an SSH signature in PEM form.
    SignatureParse,
    /// The signature does not verify over the nonce.
    SignatureInvalid,
    /// The `authorized_keys` file could not be read.
    AuthorizedKeysUnreadable,
    /// The key is not listed in `authorized_keys`.
    NotAuthorized,
    /// The challenge is not `[0x10]` followed by 32 bytes.
    InvalidChallenge,
    /// The identity file could not be read.
    IdentityUnreadable,
    /// The identity file is not an OpenSSH private key.
    IdentityParse,
    /// Signing failed.
    Signing,
    /// The signature could not be written as PEM.
    SignatureEncode,
    /// The public key could not be written in OpenSSH form.
    PublicKeyEncode,
}

/// An authentication failure, with the underlying error's text where
/// there is one.
#[derive(Debug, Clone)]
pub struct AuthError {
    pub kind: AuthErrorKind,
    pub detail: String,
}

impl AuthError {
    fn new(kind: AuthErrorKind) -> (r: Self)
        ensures
            r.kind == kind,
    {
        AuthError { kind, detail: String::new() }
    }

    fn with_detail(kind: AuthErrorKind, detail: String) -> (r: Self)
        ensures
            r.kind == kind,
    {
        AuthError { kind, detail }
    }
}

/// The little-endian bytes of a `u32`.
pub open spec fn le_bytes(x: u32) -> Seq<u8> {
    seq![(x & 0xff) as u8, ((x >> 8u32) & 0xff) as u8, ((x >> 16u32) & 0xff) as u8, ((x >> 24u32) & 0xff) as u8]
}

/// The `u32` whose little-endian bytes start `b`.
pub open spec fn le_value(b: Seq<u8>) -> u32 {
    (b[0] as u32) | ((b[1] as u32) << 8u32) | ((b[2] as u32) << 16u32) | ((b[3] as u32) << 24u32)
}

/// Reading back the bytes of a `u32` gives the `u32`.
pub proof fn lemma_le_value_of_bytes(x: u32)
    ensures
        le_value(le_bytes(x)) == x,
{
    let b0 = (x & 0xff) as u8;
    let b1 = ((x >> 8u32) & 0xff) as u8;
    let b2 = ((x >> 16u32) & 0xff) as u8;
    let b3 = ((x >> 24u32) & 0xff) as u8;
    assert((b0 as u32) | ((b1 as u32) << 8u32) | ((b2 as u32) << 16u32) | ((b3 as u32) << 24u32) == x) by (bit_vector)
        requires
            b0 == (x & 0xff) as u8,
            b1 == ((x >> 8u32) & 0xff) as u8,
            b2 == ((x >> 16u32) & 0xff) as u8,
            b3 == ((x >> 24u32) & 0xff) as u8,
    ;
}

/// The 32 nonce bytes of a challenge made at `subsec_nanos` by process
/// `pid`: their little-endian bytes repeated, each mixed with its index.
pub open spec fn challenge_nonce(subsec_nanos: u32, pid: u32) -> Seq<u8> {
    let src = le_bytes(subsec_nanos) + le_bytes(pid);
    Seq::new(32, |i: int| src[i % 8] ^ (((i * 0x6d) % 256) as u8))
}

/// The challenge message: the type byte and the nonce.
pub open spec fn spec_challenge(subsec_nanos: u32, pid: u32) -> Seq<u8> {
    seq![MSG_CHALLENGE] + challenge_nonce(subsec_nanos, pid)
}

fn le_bytes_exec(x: u32, out: &mut Vec<u8>)
    ensures
        final(out)@ == old(out)@ + le_bytes(x),
{
    out.push((x & 0xff) as u8);
    out.push(((x >> 8u32) & 0xff) as u8);
    out.push(((x >> 16u32) & 0xff) as u8);
    out.push(((x >> 24u32) & 0xff) as u8);
    assert(final(out)@ =~= old(out)@ + le_bytes(x));
}

/// Builds the challenge message from the sub-second part of the current
/// time and the process id.
pub fn make_challenge(subsec_nanos: u32, pid: u32) -> (r: Vec<u8>)
    ensures
        r@ == spec_challenge(subsec_nanos, pid),
{
    let mut src: Vec<u8> = Vec::new();
    le_bytes_exec(subsec_nanos, &mut src);
    le_bytes_exec(pid, &mut src);
    assert(src@ =~= le_bytes(subsec_nanos) + le_bytes(pid));
    let mut msg: Vec<u8> = Vec::new();
    msg.push(MSG_CHALLENGE);
    let mut i: usize = 0;
    while i < 32
        invariant
            i <= 32,
            src@ == le_bytes(subsec_nanos) + le_bytes(pid),
            msg@ == seq![MSG_CHALLENGE] + challenge_nonce(subsec_nanos, pid).subrange(0, i as int),
        decreases 32 - i,
    {
        let mix = ((i * 0x6d) % 256) as u8;
        msg.push(src[i % 8] ^ mix);
        i = i + 1;
        assert(msg@ =~= seq![MSG_CHALLENGE] + challenge_nonce(subsec_nanos, pid).subrange(0, i as int));
    }
    assert(challenge_nonce(subsec_nanos, pid).subrange(0, 32) =~= challenge_nonce(subsec_nanos, pid));
    msg
}

/// The public key and signature fields of a response message, or the
/// framing error.
pub open spec fn spec_parse_auth_response(r: Seq<u8>) -> Result<(Seq<u8>, Seq<u8>), AuthErrorKind> {
    if r.len() == 0 || r[0] != MSG_AUTH_RESPONSE {
        Err(AuthErrorKind::NotAuthResponse)
    } else {
        let body = r.drop_first();
        if body.len() < 8 {
            Err(AuthErrorKind::TooShort)
        } else {
            let pk_len = le_value(body.subrange(0, 4)) as int;
            if body.len() < 4 + pk_len + 4 {
                Err(AuthErrorKind::Truncated)
            } else {
                let after = body.skip(4 + pk_len);
                let sig_len = le_value(after.subrange(0, 4)) as int;
                if after.len() < 4 + sig_len {
                    Err(AuthErrorKind::SignatureTruncated)
                } else {
                    Ok((body.subrange(4, 4 + pk_len), after.subrange(4, 4 + sig_len)))
                }
            }
        }
    }
}

/// The response message carrying a public key and a signature. A length
/// beyond `u32::MAX` is written modulo 2^32, as `as u32` does.
pub open spec fn spec_encode_auth_response(pk: Seq<u8>, sig: Seq<u8>) -> Seq<u8> {
    seq![MSG_AUTH_RESPONSE] + le_bytes(pk.len() as u32) + pk + le_bytes(sig.len() as u32) + sig
}

fn read_le(b: &[u8], at: usize) -> (r: u32)
    requires
        at + 4 <= b@.len(),
    ensures
        r == le_value(b@.subrange(at as int, at + 4)),
{
    (b[at] as u32) | ((b[at + 1] as u32) << 8u32) | ((b[at + 2] as u32) << 16u32) | ((b[at + 3] as u32) << 24u32)
}

fn copy_range(b: &[u8], from: usize, to: usize) -> (r: Vec<u8>)
    requires
        from <= to <= b@.len(),
    ensures
        r@ == b@.subrange(from as int, to as int),
{
    let mut v: Vec<u8> = Vec::new();
    let mut i = from;
    while i < to
        invariant
            from <= i <= to,
            to <= b@.len(),
            v@ == b@.subrange(from as int, i as int),
        decreases to - i,
    {
        v.push(b[i]);
        i = i + 1;
        assert(v@ =~= b@.subrange(from as int, i as int));
    }
    v
}

/// Splits a response message into its public key and signature fields.
pub fn parse_auth_response(response: &[u8]) -> (r: Result<(Vec<u8>, Vec<u8>), AuthError>)
    ensures
        match spec_parse_auth_response(response@) {
            Ok((pk, sig)) => r matches Ok((a, b)) && a@ == pk && b@ == sig,
            Err(k) => r matches Err(e) && e.kind == k,
        },
{
    if response.len() == 0 || response[0] != MSG_AUTH_RESPONSE {
        return Err(AuthError::new(AuthErrorKind::NotAuthResponse));
    }
    let ghost body = response@.drop_first();
    let n = response.len();
    if n - 1 < 8 {
        return Err(AuthError::new(AuthErrorKind::TooShort));
    }
    let pk_len = read_le(response, 1);
    assert(response@.subrange(1, 5) =~= body.subrange(0, 4));
    if ((n - 1) as u64) < 8 + (pk_len as u64) {
        return Err(AuthError::new(AuthErrorKind::Truncated));
    }
    let pk_end: usize = 5 + pk_len as usize;
    let ghost after = body.skip(4 + pk_len as int);
    let sig_len = read_le(response, pk_end);
    assert(response@.subrange(pk_end as int, pk_end + 4) =~= after.subrange(0, 4));
    if ((n - pk_end) as u64) < 4 + (sig_len as u64) {
        return Err(AuthError::new(AuthErrorKind::SignatureTruncated));
    }
    let pk = copy_range(response, 5, pk_end);
    let sig = copy_range(response, pk_end + 4, pk_end + 4 + sig_len as usize);
    assert(pk@ =~= body.subrange(4, 4 + pk_len as int));
    assert(sig@ =~= after.subrange(4, 4 + sig_len as int));
    Ok((pk, sig))
}

/// Writes a response message.
pub fn encode_auth_response(pk: &[u8], sig: &[u8]) -> (r: Vec<u8>)
    ensures
        r@ == spec_encode_auth_response(pk@, sig@),
{
    let mut out: Vec<u8> = Vec::new();
    out.push(MSG_AUTH_RESPONSE);
    le_bytes_exec(pk.len() as u32, &mut out);
    let mut i: usize = 0;
    let ghost head = out@;
    while i < pk.len()
        invariant
            i <= pk@.len(),
            out@ == head + pk@.subrange(0, i as int),
        decreases pk@.len() - i,
    {
        out.push(pk[i]);
        i = i + 1;
        assert(out@ =~= head + pk@.subrange(0, i as int));
    }
    assert(pk@.subrange(0, pk@.len() as int) =~= pk@);
    le_bytes_exec(sig.len() as u32, &mut out);
    let ghost head2 = out@;
    let mut j: usize = 0;
    while j < sig.len()
        invariant
            j <= sig@.len(),
            out@ == head2 + sig@.subrange(0, j as int),
        decreases sig@.len() - j,
    {
        out.push(sig[j]);
        j = j + 1;
        assert(out@ =~= head2 + sig@.subrange(0, j as int));
    }
    assert(sig@.subrange(0, sig@.len() as int) =~= sig@);
    assert(out@ =~= spec_encode_auth_response(pk@, sig@));
    out
}

/// A response message reads back as the public key and signature it was
/// written from, when both lengths fit in the 4-byte length fields.
pub proof fn lemma_auth_response_roundtrip(pk: Seq<u8>, sig: Seq<u8>)
    requires
        pk.len() <= u32::MAX,
        sig.len() <= u32::MAX,
    ensures
        spec_parse_auth_response(spec_encode_auth_response(pk, sig)) == Ok::<(Seq<u8>, Seq<u8>), AuthErrorKind>((pk, sig)),
{
    let m = spec_encode_auth_response(pk, sig);
    let body = m.drop_first();
    lemma_le_value_of_bytes(pk.len() as u32);
    lemma_le_value_of_bytes(sig.len() as u32);
    assert(body =~= le_bytes(pk.len() as u32) + pk + le_bytes(sig.len() as u32) + sig);
    assert(body.subrange(0, 4) =~= le_bytes(pk.len() as u32));
    let after = body.skip(4 + pk.len() as int);
    assert(after =~= le_bytes(sig.len() as u32) + sig);
    assert(after.subrange(0, 4) =~= le_bytes(sig.len() as u32));
    assert(body.subrange(4, 4 + pk.len() as int) =~= pk);
    assert(after.subrange(4, 4 + sig.len() as int) =~= sig);
}

/// The lines of an `authorized_keys` text that can hold a key: each line
/// trimmed, without the empty ones and those that start with `#`.
pub open spec fn candidate_lines(content: Seq<char>) -> Seq<Seq<char>>
    decreases content.len(),
{
    if content.len() == 0 {
        Seq::empty()
    } else {
        proof {
            lemma_line_or_empty_shorter(content);
        }
        let line = trim(line_or_empty(content).0);
        let tail = candidate_lines(line_or_empty(content).1);
        if line.len() > 0 && line[0] != '#' {
            seq![line] + tail
        } else {
            tail
        }
    }
}

/// The views of a sequence of strings.
pub open spec fn string_views(v: Seq<String>) -> Seq<Seq<char>> {
    v.map_values(|s: String| s@)
}

/// The lines of an `authorized_keys` text that can hold a key, in order.
pub fn authorized_key_candidates(content: &str) -> (r: Vec<String>)
    ensures
        string_views(r@) == candidate_lines(content@),
{
    let mut rest = chars_of(content);
    let mut out: Vec<String> = Vec::new();
    while rest.len() > 0
        invariant
            candidate_lines(content@) == string_views(out@) + candidate_lines(rest@),
        decreases rest@.len(),
    {
        proof {
            lemma_line_or_empty_shorter(rest@);
        }
        let ghost before = rest@;
        let (line, next) = line_or_empty_exec(&rest);
        let t = trim_chars(&line);
        if t.len() > 0 && t[0] != '#' {
            let s = string_of(&t);
            let ghost old_out = out@;
            out.push(s);
            assert(string_views(out@) =~= string_views(old_out) + seq![t@]);
            assert(string_views(out@) + candidate_lines(next@) =~= string_views(old_out) + (seq![t@] + candidate_lines(next@)));
        } else {
            assert(candidate_lines(before) == candidate_lines(next@));
        }
        rest = next;
    }
    assert(string_views(out@) + candidate_lines(rest@) =~= string_views(out@));
    out
}

/// Whether a key with fingerprint `fp` is among the candidate lines: some
/// line parses as an OpenSSH public key with that fingerprint.
pub open spec fn key_listed(candidates: Seq<Seq<char>>, fp: Seq<char>) -> bool {
    exists|i: int|
        0 <= i < candidates.len() && #[trigger] openssh_public_key_parses(candidates[i])
            && ssh_fingerprint_sha256(candidates[i]) == fp
}

/// Looks the key up in the text of an `authorized_keys` file by its SHA-256
/// fingerprint.
fn check_authorized_keys(key: &SshPublicKey, content: &str) -> (r: Result<(), AuthError>)
    ensures
        r is Ok <==> key_listed(candidate_lines(content@), ssh_fingerprint_sha256(key.text())),
        r matches Err(e) ==> e.kind == AuthErrorKind::NotAuthorized,
{
    let target = fingerprint_sha256(key);
    let cands = authorized_key_candidates(content);
    let ghost cs = candidate_lines(content@);
    let mut i: usize = 0;
    while i < cands.len()
        invariant
            i <= cands@.len(),
            string_views(cands@) == cs,
            cs == candidate_lines(content@),
            target@ == ssh_fingerprint_sha256(key.text()),
            forall|j: int|
                0 <= j < i ==> !(#[trigger] openssh_public_key_parses(cs[j]) && ssh_fingerprint_sha256(cs[j]) == target@),
        decreases cands@.len() - i,
    {
        assert(cs[i as int] == cands@[i as int]@);
        match parse_public_key(cands[i].as_str()) {
            Ok(ak) => {
                let fp = fingerprint_sha256(&ak);
                if crate::text::str_eq(fp.as_str(), target.as_str()) {
                    assert(ak.text() == cs[i as int]);
                    assert(openssh_public_key_parses(cs[i as int]) && ssh_fingerprint_sha256(cs[i as int])
                        == ssh_fingerprint_sha256(key.text()));
                    return Ok(());
                }
            },
            Err(_) => {},
        }
        i = i + 1;
    }
    Err(AuthError::new(AuthErrorKind::NotAuthorized))
}

/// The outcome of checking a response message against a nonce and the
/// text of `authorized_keys` (`None` where it could not be read).
pub open spec fn spec_verify_auth_response(
    response: Seq<u8>,
    nonce: Seq<u8>,
    authorized_keys: Option<Seq<char>>,
) -> Result<(), AuthErrorKind> {
    match spec_parse_auth_response(response) {
        Err(k) => Err(k),
        Ok((pk, sig)) => {
            if !valid_utf8(pk) {
                Err(AuthErrorKind::PublicKeyEncoding)
            } else if !openssh_public_key_parses(decode_utf8(pk)) {
                Err(AuthErrorKind::PublicKeyParse)
            } else if !valid_utf8(sig) {
                Err(AuthErrorKind::SignatureEncoding)
            } else if !ssh_sig_pem_parses(decode_utf8(sig)) {
                Err(AuthErrorKind::SignatureParse)
            } else if !ssh_signature_verifies(decode_utf8(pk), NAMESPACE@, nonce, decode_utf8(sig)) {
                Err(AuthErrorKind::SignatureInvalid)
            } else {
                match authorized_keys {
                    None => Err(AuthErrorKind::AuthorizedKeysUnreadable),
                    Some(content) => {
                        if key_listed(candidate_lines(content), ssh_fingerprint_sha256(decode_utf8(pk))) {
                            Ok(())
                        } else {
                            Err(AuthErrorKind::NotAuthorized)
                        }
                    },
                }
            }
        },
    }
}

/// Checks a response message: its framing, the public key, the signature
/// over `nonce`, and that the key is listed in `authorized_keys` (given as
/// its text, `None` where the file could not be read).
pub fn verify_auth_response(response: &[u8], nonce: &[u8], authorized_keys: Option<&str>) -> (r: Result<(), AuthError>)
    ensures
        match spec_verify_auth_response(response@, nonce@, opt_str_view(authorized_keys)) {
            Ok(()) => r is Ok,
            Err(k) => r matches Err(e) && e.kind == k,
        },
{
    let (pk, sig) = match parse_auth_response(response) {
        Ok(p) => p,
        Err(e) => return Err(e),
    };
    let pk_text = match utf8_str(pk.as_slice()) {
        Ok(t) => t,
        Err(d) => return Err(AuthError::with_detail(AuthErrorKind::PublicKeyEncoding, d)),
    };
    let key = match parse_public_key(pk_text) {
        Ok(k) => k,
        Err(d) => return Err(AuthError::with_detail(AuthErrorKind::PublicKeyParse, d)),
    };
    let sig_text = match utf8_str(sig.as_slice()) {
        Ok(t) => t,
        Err(d) => return Err(AuthError::with_detail(AuthErrorKind::SignatureEncoding, d)),
    };
    let signature = match parse_signature(sig_text) {
        Ok(s) => s,
        Err(d) => return Err(AuthError::with_detail(AuthErrorKind::SignatureParse, d)),
    };
    match verify_signature(&key, NAMESPACE, nonce, &signature) {
        Ok(()) => {},
        Err(d) => return Err(AuthError::with_detail(AuthErrorKind::SignatureInvalid, d)),
    }
    match authorized_keys {
        None => Err(AuthError::new(AuthErrorKind::AuthorizedKeysUnreadable)),
        Some(content) => check_authorized_keys(&key, content),
    }
}

/// The view of an optional string slice.
pub open spec fn opt_str_view(s: Option<&str>) -> Option<Seq<char>> {
    match s {
        Some(t) => Some(t@),
        None => None,
    }
}

/// Whether `r` is an error of kind `k`.
pub open spec fn fails_with<T>(r: Result<T, AuthError>, k: AuthErrorKind) -> bool {
    r matches Err(e) && e.kind == k
}

/// Whether a message is a challenge: the type byte and a 32-byte nonce.
pub open spec fn challenge_valid(m: Seq<u8>) -> bool {
    m.len() == 33 && m[0] == MSG_CHALLENGE
}

/// Every challenge the server builds is one a client accepts.
pub proof fn lemma_challenge_accepted(subsec_nanos: u32, pid: u32)
    ensures
        challenge_valid(spec_challenge(subsec_nanos, pid)),
{
}

/// The response message a client answers a challenge with, signing its
/// nonce in the namespace `herdr-ws` with the private key given as text
/// (`None` where it could not be read), or the error.
pub open spec fn spec_sign_challenge(challenge: Seq<u8>, identity: Option<Seq<char>>) -> Result<Seq<u8>, AuthErrorKind> {
    if !challenge_valid(challenge) {
        Err(AuthErrorKind::InvalidChallenge)
    } else {
        let nonce = challenge.subrange(1, 33);
        match identity {
            None => Err(AuthErrorKind::IdentityUnreadable),
            Some(t) => if !openssh_private_key_parses(t) {
                Err(AuthErrorKind::IdentityParse)
            } else if !ssh_sign_succeeds(t, NAMESPACE@, nonce) {
                Err(AuthErrorKind::Signing)
            } else {
                match ssh_sig_pem(t, NAMESPACE@, nonce) {
                    None => Err(AuthErrorKind::SignatureEncode),
                    Some(sig) => match ssh_private_key_public_openssh(t) {
                        None => Err(AuthErrorKind::PublicKeyEncode),
                        Some(pk) => Ok(spec_encode_auth_response(encode_utf8(pk), encode_utf8(sig))),
                    },
                }
            },
        }
    }
}

/// What checking a response signed with the key whose public half is `pk`
/// gives against the nonce it was signed for: acceptance exactly when the
/// key is listed in `authorized_keys`.
pub open spec fn signed_response_verdict(pk: Seq<char>, authorized_keys: Option<Seq<char>>) -> Result<(), AuthErrorKind> {
    match authorized_keys {
        None => Err(AuthErrorKind::AuthorizedKeysUnreadable),
        Some(content) => if key_listed(candidate_lines(content), ssh_fingerprint_sha256(pk)) {
            Ok(())
        } else {
            Err(AuthErrorKind::NotAuthorized)
        },
    }
}

/// Signs the nonce of a challenge message with an OpenSSH private key
/// (given as its text, `None` where the identity file could not be read)
/// and writes the response message. A response it writes is accepted by
/// `verify_auth_response` for the same nonce exactly when the key is
/// listed (for fields that fit the 4-byte lengths).
pub fn sign_challenge(challenge_msg: &[u8], identity_key: Option<&str>) -> (r: Result<Vec<u8>, AuthError>)
    ensures
        match spec_sign_challenge(challenge_msg@, opt_str_view(identity_key)) {
            Ok(m) => r matches Ok(v) && v@ == m,
            Err(k) => fails_with(r, k),
        },
        r matches Ok(m) ==> {
            let t = identity_key->0@;
            let nonce = challenge_msg@.subrange(1, 33);
            let pk = ssh_private_key_public_openssh(t)->0;
            let sig = ssh_sig_pem(t, NAMESPACE@, nonce)->0;
            encode_utf8(pk).len() <= u32::MAX && encode_utf8(sig).len() <= u32::MAX ==> forall|
                authorized_keys: Option<Seq<char>>,
            |
                #[trigger] spec_verify_auth_response(m@, nonce, authorized_keys) == signed_response_verdict(
                    pk,
                    authorized_keys,
                )
        },
{
    if challenge_msg.len() != 33 || challenge_msg[0] != MSG_CHALLENGE {
        return Err(AuthError::new(AuthErrorKind::InvalidChallenge));
    }
    let nonce = copy_range(challenge_msg, 1, 33);
    let text = match identity_key {
        Some(t) => t,
        None => return Err(AuthError::new(AuthErrorKind::IdentityUnreadable)),
    };
    let key = match parse_private_key(text) {
        Ok(k) => k,
        Err(d) => return Err(AuthError::with_detail(AuthErrorKind::IdentityParse, d)),
    };
    let signed = match sign(&key, NAMESPACE, nonce.as_slice()) {
        Ok(s) => s,
        Err(d) => return Err(AuthError::with_detail(AuthErrorKind::Signing, d)),
    };
    let pem = match signature_pem(&signed) {
        Ok(p) => p,
        Err(d) => return Err(AuthError::with_detail(AuthErrorKind::SignatureEncode, d)),
    };
    let public = match public_openssh(&key) {
        Ok(p) => p,
        Err(d) => return Err(AuthError::with_detail(AuthErrorKind::PublicKeyEncode, d)),
    };
    let m = encode_auth_response(public.as_str().as_bytes(), pem.as_str().as_bytes());
    assert(m@ == spec_encode_auth_response(encode_utf8(public@), encode_utf8(pem@)));
    proof {
        let pkb = encode_utf8(public@);
        let sgb = encode_utf8(pem@);
        vstd::utf8::encode_utf8_valid_utf8(public@);
        vstd::utf8::encode_utf8_decode_utf8(public@);
        vstd::utf8::encode_utf8_valid_utf8(pem@);
        vstd::utf8::encode_utf8_decode_utf8(pem@);
        if pkb.len() <= u32::MAX && sgb.len() <= u32::MAX {
            lemma_auth_response_roundtrip(pkb, sgb);
            assert forall|authorized_keys: Option<Seq<char>>|
                #[trigger] spec_verify_auth_response(m@, nonce@, authorized_keys) == signed_response_verdict(
                    public@,
                    authorized_keys,
                ) by {}
        }
    }
    Ok(m)
}

/// What the server answered a response message with.
#[derive(Debug, Clone, PartialEq, Eq)]
pub enum AuthReply {
    /// `[0x12]`: the key was accepted.
    Accepted,
    /// `[0x13]` and the bytes after it: the key was refused.
    Refused(Vec<u8>),
    /// Anything else.
    Unexpected,
}

/// Reads the server's answer to a response message.
pub fn auth_reply(msg: &[u8]) -> (r: AuthReply)
    ensures
        msg@.len() > 0 && msg@[0] == MSG_AUTH_OK ==> r is Accepted,
        msg@.len() > 0 && msg@[0] == MSG_AUTH_FAILED ==> (r matches AuthReply::Refused(rest) && rest@ == msg@.skip(1)),
        msg@.len() == 0 || (msg@[0] != MSG_AUTH_OK && msg@[0] != MSG_AUTH_FAILED) ==> r is Unexpected,
{
    if msg.len() > 0 && msg[0] == MSG_AUTH_OK {
        AuthReply::Accepted
    } else if msg.len() > 0 && msg[0] == MSG_AUTH_FAILED {
        let rest = copy_range(msg, 1, msg.len());
        AuthReply::Refused(rest)
    } else {
        AuthReply::Unexpected
    }
}

/// The server's answer to a response message: `[0x12]` when the key was
/// accepted, `[0x13]` alone when it was refused.
pub fn auth_verdict(accepted: bool) -> (r: Vec<u8>)
    ensures
        r@ == (if accepted { seq![MSG_AUTH_OK] } else { seq![MSG_AUTH_FAILED] }),
{
    let mut v: Vec<u8> = Vec::new();
    if accepted {
        v.push(MSG_AUTH_OK);
    } else {
        v.push(MSG_AUTH_FAILED);
    }
    v
}

/// A client reads the server's verdict back as it was meant: acceptance
/// as `Accepted`, refusal as `Refused` with no message.
pub proof fn lemma_verdict_read_back(accepted: bool)
    ensures
        ({
            let m = if accepted { seq![MSG_AUTH_OK] } else { seq![MSG_AUTH_FAILED] };
            &&& m.len() > 0
            &&& accepted ==> m[0] == MSG_AUTH_OK
            &&& !accepted ==> m[0] == MSG_AUTH_FAILED && m.skip(1) =~= Seq::<u8>::empty()
        }),
{
}

/// `$HOME/.ssh`, with `.` when `HOME` is unset.
pub open spec fn spec_ssh_dir(home: Option<Seq<char>>) -> Seq<char> {
    let home = match home {
        Some(h) => h,
        None => "."@,
    };
    join_path(home, ".ssh"@)
}

fn ssh_dir(home: Option<&str>) -> (r: String)
    ensures
        r@ == spec_ssh_dir(opt_str_view(home)),
{
    let h = match home {
        Some(h) => h,
        None => ".",
    };
    join_path_exec(h, ".ssh")
}

/// The identity files tried, in order, when none is configured.
pub fn default_identity_files(home: Option<&str>) -> (r: Vec<String>)
    ensures
        string_views(r@) == seq![
            join_path(spec_ssh_dir(opt_str_view(home)), "id_ed25519"@),
            join_path(spec_ssh_dir(opt_str_view(home)), "id_ecdsa"@),
            join_path(spec_ssh_dir(opt_str_view(home)), "id_rsa"@),
        ],
{
    let d = ssh_dir(home);
    let mut v: Vec<String> = Vec::new();
    v.push(join_path_exec(d.as_str(), "id_ed25519"));
    v.push(join_path_exec(d.as_str(), "id_ecdsa"));
    v.push(join_path_exec(d.as_str(), "id_rsa"));
    assert(string_views(v@) =~= seq![
        join_path(spec_ssh_dir(opt_str_view(home)), "id_ed25519"@),
        join_path(spec_ssh_dir(opt_str_view(home)), "id_ecdsa"@),
        join_path(spec_ssh_dir(opt_str_view(home)), "id_rsa"@),
    ]);
    v
}

/// The `authorized_keys` file read when none is configured.
pub fn default_authorized_keys(home: Option<&str>) -> (r: String)
    ensures
        r@ == join_path(spec_ssh_dir(opt_str_view(home)), "authorized_keys"@),
{
    let d = ssh_dir(home);
    join_path_exec(d.as_str(), "authorized_keys")
}

} // verus!
