//! TLS certificate pinning for the WebSocket transport: the `SHA256:<base64>`
//! fingerprint format and the default certificate locations.
use vstd::prelude::*;
use vstd::string::*;

use crate::encoding::{
    base64_standard, base64_standard_decoded, decode_base64_standard, encode_base64_standard,
    sha256, sha256_digest,
};
use crate::remote::{join_path, join_path_exec, views};
use crate::text::{decimal, format_decimal, owned, push_str, strip_prefix};

verus! {

/// The text form of a certificate fingerprint.
pub open spec fn spec_cert_fingerprint(cert_der: Seq<u8>) -> Seq<char> {
    "SHA256:"@ + base64_standard(sha256(cert_der))
}

/// Fingerprint of a DER certificate as `SHA256:<base64>`.
///
/// The text reads back, through [`parse_fingerprint`], as the certificate's
/// digest.
pub fn cert_fingerprint(cert_der: &[u8]) -> (r: String)
    ensures
        r@ == spec_cert_fingerprint(cert_der@),
        spec_parse_fingerprint(r@) == Ok::<Seq<u8>, Option<Seq<char>>>(sha256(cert_der@)),
{
    let digest = sha256_digest(cert_der);
    let mut s = owned("SHA256:");
    let b = encode_base64_standard(digest.as_slice());
    push_str(&mut s, b.as_str());
    proof {
        let p = "SHA256:"@;
        assert(s@.subrange(0, p.len() as int) =~= p);
        assert(s@.skip(p.len() as int) =~= b@);
    }
    s
}

/// How a fingerprint text is read: the `SHA256:` prefix, then Base64 of
/// exactly 32 bytes. An error carries its message; the Base64 error's own
/// text is left open (`None` here).
pub open spec fn spec_parse_fingerprint(fp: Seq<char>) -> Result<Seq<u8>, Option<Seq<char>>> {
    if !"SHA256:"@.is_prefix_of(fp) {
        Err(Some("fingerprint must start with 'SHA256:', got: "@ + fp))
    } else {
        match base64_standard_decoded(fp.skip("SHA256:"@.len() as int)) {
            None => Err(None),
            Some(bytes) => if bytes.len() == 32 {
                Ok(bytes)
            } else {
                Err(Some("fingerprint must be 32 bytes (SHA-256), got "@ + decimal(bytes.len()) + " bytes"@))
            },
        }
    }
}

/// Parses a `SHA256:<base64>` fingerprint into its 32 raw bytes.
pub fn parse_fingerprint(fp: &str) -> (r: Result<[u8; 32], String>)
    ensures
        match spec_parse_fingerprint(fp@) {
            Ok(bytes) => r matches Ok(a) && a@ == bytes,
            Err(Some(m)) => r matches Err(x) && x@ == m,
            Err(None) => r matches Err(x) && "fingerprint base64 decode error: "@.is_prefix_of(x@),
        },
{
    let b64 = match strip_prefix(fp, "SHA256:") {
        Some(b) => b,
        None => {
            let mut m = owned("fingerprint must start with 'SHA256:', got: ");
            push_str(&mut m, fp);
            return Err(m);
        },
    };
    let bytes = match decode_base64_standard(b64.as_str()) {
        Ok(v) => v,
        Err(e) => {
            let mut m = owned("fingerprint base64 decode error: ");
            let ghost head = m@;
            push_str(&mut m, e.as_str());
            assert(head.is_prefix_of(m@));
            return Err(m);
        },
    };
    if bytes.len() != 32 {
        let mut m = owned("fingerprint must be 32 bytes (SHA-256), got ");
        let n = format_decimal(bytes.len() as u64);
        push_str(&mut m, n.as_str());
        push_str(&mut m, " bytes");
        return Err(m);
    }
    let mut out = [0u8; 32];
    let mut i: usize = 0;
    while i < 32
        invariant
            i <= 32,
            bytes@.len() == 32,
            forall|j: int| 0 <= j < i ==> out@[j] == bytes@[j],
        decreases 32 - i,
    {
        out.set(i, bytes[i]);
        i = i + 1;
    }
    assert(out@ =~= bytes@);
    Ok(out)
}

/// Pins a server certificate by the SHA-256 digest of its DER encoding;
/// chain validation is not performed.
#[derive(Debug)]
pub struct FingerprintVerifier {
    expected: [u8; 32],
}

impl FingerprintVerifier {
    /// The digest the server certificate must have.
    pub closed spec fn spec_expected(&self) -> Seq<u8> {
        self.expected@
    }

    /// A verifier that accepts exactly the certificates with this digest.
    pub fn new(expected: [u8; 32]) -> (r: Self)
        ensures
            r.spec_expected() == expected@,
    {
        FingerprintVerifier { expected }
    }

    /// Whether the end-entity certificate carries the pinned digest.
    pub fn matches(&self, end_entity_der: &[u8]) -> (r: bool)
        ensures
            r == (sha256(end_entity_der@) == self.spec_expected()),
    {
        let d = sha256_digest(end_entity_der);
        let mut i: usize = 0;
        while i < 32
            invariant
                i <= 32,
                d@.len() == 32,
                d@ == sha256(end_entity_der@),
                self.expected@.len() == 32,
                forall|j: int| 0 <= j < i ==> d@[j] == self.expected@[j],
            decreases 32 - i,
        {
            if d[i] != self.expected[i] {
                assert(d@[i as int] != self.expected@[i as int]);
                return false;
            }
            i = i + 1;
        }
        assert(d@ =~= self.expected@);
        true
    }
}

/// `$HOME/.config/herdr`, with `.` when `HOME` is unset.
pub open spec fn spec_default_cert_dir(home: Option<Seq<char>>) -> Seq<char> {
    let home = match home {
        Some(h) => h,
        None => "."@,
    };
    join_path(join_path(home, ".config"@), "herdr"@)
}

/// The directory holding the generated certificate and key.
pub fn default_cert_dir(home: Option<&str>) -> (r: String)
    ensures
        r@ == spec_default_cert_dir(match home {
            Some(h) => Some(h@),
            None => None,
        }),
{
    let h = match home {
        Some(h) => h,
        None => ".",
    };
    let c = join_path_exec(h, ".config");
    join_path_exec(c.as_str(), "herdr")
}

/// The default certificate path, below the given home directory.
pub fn default_cert_path(home: Option<&str>) -> (r: String)
    ensures
        r@ == join_path(spec_default_cert_dir(match home {
            Some(h) => Some(h@),
            None => None,
        }), "ws-tls-cert.pem"@),
{
    let d = default_cert_dir(home);
    join_path_exec(d.as_str(), "ws-tls-cert.pem")
}

/// The default private key path, below the given home directory.
pub fn default_key_path(home: Option<&str>) -> (r: String)
    ensures
        r@ == join_path(spec_default_cert_dir(match home {
            Some(h) => Some(h@),
            None => None,
        }), "ws-tls-key.pem"@),
{
    let d = default_cert_dir(home);
    join_path_exec(d.as_str(), "ws-tls-key.pem")
}

#[verifier::external_type_specification]
#[verifier::external_body]
pub struct ExPrivateKeyDer<'a>(rustls::pki_types::PrivateKeyDer<'a>);

/// The first item that `rustls_pemfile::certs` yields for a PEM text: none,
/// an error (`None`), or a certificate's DER bytes.
pub uninterp spec fn pem_first_certificate(pem: Seq<u8>) -> Option<Option<Seq<u8>>>;

/// All the certificates `rustls_pemfile::certs` yields for a PEM text, or
/// `None` when it yields an error.
pub uninterp spec fn pem_certificates(pem: Seq<u8>) -> Option<Seq<Seq<u8>>>;

/// Whether `rustls_pemfile::private_key` fails on a PEM text, finds no key,
/// or finds one.
pub uninterp spec fn pem_private_key_found(pem: Seq<u8>) -> Option<bool>;

/// `rustls_pemfile::certs(..).next()`, named by `pem_first_certificate`; an
/// error's text is not stated.
#[verifier::external_body]
fn first_pem_certificate(pem: &[u8]) -> (r: Option<Result<Vec<u8>, String>>)
    ensures
        match pem_first_certificate(pem@) {
            None => r is None,
            Some(None) => r matches Some(Err(_)),
            Some(Some(der)) => r matches Some(Ok(v)) && v@ == der,
        },
{
    let mut rd = pem;
    let first = rustls_pemfile::certs(&mut rd).next();
    match first {
        None => None,
        Some(Ok(cert)) => Some(Ok(cert.as_ref().to_vec())),
        Some(Err(e)) => Some(Err(e.to_string())),
    }
}

/// `rustls_pemfile::certs(..).collect::<Result<Vec<_>, _>>()`, named by
/// `pem_certificates`; an error's text is not stated.
#[verifier::external_body]
fn all_pem_certificates(pem: &[u8]) -> (r: Result<Vec<Vec<u8>>, String>)
    ensures
        match pem_certificates(pem@) {
            None => r is Err,
            Some(ders) => r matches Ok(v) && v@.len() == ders.len() && forall|i: int|
                0 <= i < ders.len() ==> #[trigger] v@[i]@ == ders[i],
        },
{
    let mut rd = pem;
    let all = rustls_pemfile::certs(&mut rd).collect::<Result<Vec<_>, _>>();
    match all {
        Ok(certs) => Ok(certs.iter().map(|c| c.as_ref().to_vec()).collect()),
        Err(e) => Err(e.to_string()),
    }
}

/// `rustls_pemfile::private_key`: fails, finds no key, or finds one, as the
/// name `pem_private_key_found` says; the key itself is not stated.
#[verifier::external_body]
fn first_pem_private_key(pem: &[u8]) -> (r: Result<Option<rustls::pki_types::PrivateKeyDer<'static>>, String>)
    ensures
        match pem_private_key_found(pem@) {
            None => r is Err,
            Some(found) => r matches Ok(k) && (k is Some <==> found),
        },
{
    let mut rd = pem;
    rustls_pemfile::private_key(&mut rd).map_err(|e| e.to_string())
}

/// The fingerprint of the first certificate in a PEM text.
pub fn first_certificate_fingerprint(cert_pem: &[u8]) -> (r: Result<String, String>)
    ensures
        match pem_first_certificate(cert_pem@) {
            None => r matches Err(m) && m@ == "no certificate in PEM"@,
            Some(None) => r matches Err(m) && "cert parse: "@.is_prefix_of(m@),
            Some(Some(der)) => r matches Ok(fp) && fp@ == spec_cert_fingerprint(der),
        },
{
    match first_pem_certificate(cert_pem) {
        None => Err(owned("no certificate in PEM")),
        Some(Err(e)) => {
            let mut m = owned("cert parse: ");
            let ghost head = m@;
            push_str(&mut m, e.as_str());
            assert(head.is_prefix_of(m@));
            Err(m)
        },
        Some(Ok(der)) => Ok(cert_fingerprint(der.as_slice())),
    }
}

/// The certificate chain and key a TLS server is set up with.
pub struct TlsMaterial {
    /// The certificates, in file order, as DER.
    pub certs: Vec<Vec<u8>>,
    /// The private key.
    pub key: rustls::pki_types::PrivateKeyDer<'static>,
    /// The fingerprint of the first certificate.
    pub fingerprint: String,
}

/// Reads the certificate chain and private key from their PEM texts.
pub fn tls_material(cert_pem: &[u8], key_pem: &[u8]) -> (r: Result<TlsMaterial, String>)
    ensures
        match pem_certificates(cert_pem@) {
            None => r matches Err(m) && "cert parse error: "@.is_prefix_of(m@),
            Some(ders) => if ders.len() == 0 {
                r matches Err(m) && m@ == "no certificates in PEM file"@
            } else {
                match pem_private_key_found(key_pem@) {
                    None => r matches Err(m) && "key parse error: "@.is_prefix_of(m@),
                    Some(false) => r matches Err(m) && m@ == "no private key in PEM file"@,
                    Some(true) => r matches Ok(t) && t.certs@.len() == ders.len()
                        && (forall|i: int| 0 <= i < ders.len() ==> #[trigger] t.certs@[i]@ == ders[i])
                        && t.fingerprint@ == spec_cert_fingerprint(ders[0]),
                }
            },
        },
{
    let certs = match all_pem_certificates(cert_pem) {
        Ok(c) => c,
        Err(e) => {
            let mut m = owned("cert parse error: ");
            let ghost head = m@;
            push_str(&mut m, e.as_str());
            assert(head.is_prefix_of(m@));
            return Err(m);
        },
    };
    if certs.len() == 0 {
        return Err(owned("no certificates in PEM file"));
    }
    let key = match first_pem_private_key(key_pem) {
        Ok(Some(k)) => k,
        Ok(None) => return Err(owned("no private key in PEM file")),
        Err(e) => {
            let mut m = owned("key parse error: ");
            let ghost head = m@;
            push_str(&mut m, e.as_str());
            assert(head.is_prefix_of(m@));
            return Err(m);
        },
    };
    let fingerprint = cert_fingerprint(certs[0].as_slice());
    Ok(TlsMaterial { certs, key, fingerprint })
}

/// The lines printed with a server's fingerprint.
pub fn fingerprint_lines(fingerprint: &str) -> (r: Vec<String>)
    ensures
        r@.len() == 2,
        r@[0]@ == "  TLS fingerprint: "@ + fingerprint@,
        r@[1]@ == "  Pass to client:  --fingerprint "@ + fingerprint@,
{
    let mut a = owned("  TLS fingerprint: ");
    push_str(&mut a, fingerprint);
    let mut b = owned("  Pass to client:  --fingerprint ");
    push_str(&mut b, fingerprint);
    let mut v: Vec<String> = Vec::new();
    v.push(a);
    v.push(b);
    v
}

/// Whether a text is a PEM block of the given tag: it opens with the line
/// `-----BEGIN <tag>-----`.
pub open spec fn pem_block_of(text: Seq<char>, tag: Seq<char>) -> bool {
    ("-----BEGIN "@ + tag + "-----"@).is_prefix_of(text)
}

/// Whether the certificate in a PEM text, as rcgen writes it, lists `name`
/// among its subject alternative names: as an IP address where `name`
/// parses as one (`IpAddr::from_str`), else as a DNS name.
pub uninterp spec fn certificate_lists_name(cert_pem: Seq<char>, name: Seq<char>) -> bool;

/// `rcgen::generate_simple_self_signed` with a fresh key, the certificate
/// and key written as PEM. rcgen puts each of `names` in the certificate's
/// subject alternative names (`CertificateParams::new`), and writes the
/// certificate and key with `pem::encode_config` under the tags
/// `CERTIFICATE` and `PRIVATE KEY`, so each opens with its `BEGIN` line;
/// the rest is not stated, as the key is random. An error's text is not
/// stated either.
#[verifier::external_body]
fn self_signed_pem(names: Vec<String>) -> (r: Result<(String, String), String>)
    ensures
        r matches Ok((cert, key)) ==> {
            &&& pem_block_of(cert@, "CERTIFICATE"@)
            &&& pem_block_of(key@, "PRIVATE KEY"@)
            &&& forall|i: int| 0 <= i < names@.len() ==> certificate_lists_name(cert@, #[trigger] names@[i]@)
        },
{
    match rcgen::generate_simple_self_signed(names) {
        Ok(ck) => Ok((ck.cert.pem(), ck.key_pair.serialize_pem())),
        Err(e) => Err(e.to_string()),
    }
}

/// The names the gateway's certificate is made for, so that clients can
/// connect by hostname or by `127.0.0.1`.
pub open spec fn spec_certificate_names() -> Seq<Seq<char>> {
    seq!["herdr-ws"@, "localhost"@, "127.0.0.1"@]
}

/// The names the gateway's certificate is made for.
pub fn certificate_names() -> (r: Vec<String>)
    ensures
        views(r@) == spec_certificate_names(),
{
    let mut names: Vec<String> = Vec::new();
    names.push(owned("herdr-ws"));
    names.push(owned("localhost"));
    names.push(owned("127.0.0.1"));
    assert(views(names@) =~= spec_certificate_names());
    names
}

/// A new self-signed certificate and its key, as PEM, made for the names of
/// `spec_certificate_names`; or the message of the failure.
pub fn generate_certificate() -> (r: Result<(String, String), String>)
    ensures
        r matches Ok((cert, key)) ==> {
            &&& pem_block_of(cert@, "CERTIFICATE"@)
            &&& pem_block_of(key@, "PRIVATE KEY"@)
            &&& forall|i: int| 0 <= i < spec_certificate_names().len() ==> certificate_lists_name(
                cert@,
                #[trigger] spec_certificate_names()[i],
            )
        },
        r matches Err(m) ==> "cert generation failed: "@.is_prefix_of(m@),
{
    let names = certificate_names();
    let ghost listed = views(names@);
    match self_signed_pem(names) {
        Ok(pair) => {
            assert forall|i: int| 0 <= i < spec_certificate_names().len() implies certificate_lists_name(
                pair.0@,
                #[trigger] spec_certificate_names()[i],
            ) by {
                assert(listed[i] == names@[i]@);
            }
            Ok(pair)
        },
        Err(e) => {
            let mut m = owned("cert generation failed: ");
            let ghost head = m@;
            push_str(&mut m, e.as_str());
            assert(head.is_prefix_of(m@));
            Err(m)
        },
    }
}

} // verus!
