//! The `ssh-key` operations that public-key authentication rests on.
//!
//! Parsed keys and signatures are kept together with the text they were
//! parsed from, so that what the crate computes from them can be stated
//! over that text.
use vstd::prelude::*;

verus! {

#[verifier::external_type_specification]
#[verifier::external_body]
pub struct ExPublicKey(ssh_key::PublicKey);

#[verifier::external_type_specification]
#[verifier::external_body]
pub struct ExPrivateKey(ssh_key::PrivateKey);

#[verifier::external_type_specification]
#[verifier::external_body]
pub struct ExSshSig(ssh_key::SshSig);

/// Whether `PublicKey::from_openssh` accepts the text.
pub uninterp spec fn openssh_public_key_parses(text: Seq<char>) -> bool;

/// Whether `SshSig::from_pem` accepts the text.
pub uninterp spec fn ssh_sig_pem_parses(text: Seq<char>) -> bool;

/// Whether `PublicKey::verify` accepts the signature (given as PEM text)
/// over `msg` in `namespace` for the key (given as OpenSSH text).
pub uninterp spec fn ssh_signature_verifies(key: Seq<char>, namespace: Seq<char>, msg: Seq<u8>, sig: Seq<char>) -> bool;

/// `PublicKey::fingerprint(HashAlg::Sha256)` as text, for the key given as
/// OpenSSH text.
pub uninterp spec fn ssh_fingerprint_sha256(key: Seq<char>) -> Seq<char>;

/// Whether `PrivateKey::from_openssh` accepts the text.
pub uninterp spec fn openssh_private_key_parses(text: Seq<char>) -> bool;

/// `PrivateKey::public_key().to_openssh()`, for the key given as PEM text.
pub uninterp spec fn ssh_private_key_public_openssh(key: Seq<char>) -> Option<Seq<char>>;

/// A public key together with the OpenSSH text it was parsed from.
pub struct SshPublicKey {
    text: String,
    key: ssh_key::PublicKey,
}

impl SshPublicKey {
    /// The OpenSSH text of the key.
    pub closed spec fn text(&self) -> Seq<char> {
        self.text@
    }
}

/// A signature together with the PEM text it was parsed from.
pub struct SshSignature {
    pem: String,
    sig: ssh_key::SshSig,
}

impl SshSignature {
    /// The PEM text of the signature.
    pub closed spec fn pem(&self) -> Seq<char> {
        self.pem@
    }
}

/// A private key together with the PEM text it was parsed from.
pub struct SshPrivateKey {
    text: String,
    key: ssh_key::PrivateKey,
}

impl SshPrivateKey {
    /// The PEM text of the key.
    pub closed spec fn text(&self) -> Seq<char> {
        self.text@
    }
}

/// `ssh_key::PublicKey::from_openssh`: succeeds exactly when the name
/// `openssh_public_key_parses` holds of the text; on failure the error's
/// `Display` text, of which nothing is stated.
#[verifier::external_body]
pub(crate) fn parse_public_key(text: &str) -> (r: Result<SshPublicKey, String>)
    ensures
        r is Ok <==> openssh_public_key_parses(text@),
        r matches Ok(k) ==> k.text() == text@,
{
    match ssh_key::PublicKey::from_openssh(text) {
        Ok(key) => Ok(SshPublicKey { text: text.to_string(), key }),
        Err(e) => Err(e.to_string()),
    }
}

/// `ssh_key::SshSig::from_pem`: succeeds exactly when the name
/// `ssh_sig_pem_parses` holds of the text.
#[verifier::external_body]
pub(crate) fn parse_signature(pem: &str) -> (r: Result<SshSignature, String>)
    ensures
        r is Ok <==> ssh_sig_pem_parses(pem@),
        r matches Ok(s) ==> s.pem() == pem@,
{
    match ssh_key::SshSig::from_pem(pem) {
        Ok(sig) => Ok(SshSignature { pem: pem.to_string(), sig }),
        Err(e) => Err(e.to_string()),
    }
}

/// `ssh_key::PublicKey::verify`: succeeds exactly when the name
/// `ssh_signature_verifies` holds of the key's text, the namespace, the
/// message and the signature's text.
#[verifier::external_body]
pub(crate) fn verify_signature(key: &SshPublicKey, namespace: &str, msg: &[u8], sig: &SshSignature) -> (r: Result<(), String>)
    ensures
        r is Ok <==> ssh_signature_verifies(key.text(), namespace@, msg@, sig.pem()),
{
    match key.key.verify(namespace, msg, &sig.sig) {
        Ok(()) => Ok(()),
        Err(e) => Err(e.to_string()),
    }
}

/// `ssh_key::PublicKey::fingerprint(HashAlg::Sha256)`, as its `Display`
/// text (`SHA256:<base64>`), named by `ssh_fingerprint_sha256` of the key's
/// text.
#[verifier::external_body]
pub(crate) fn fingerprint_sha256(key: &SshPublicKey) -> (r: String)
    ensures
        r@ == ssh_fingerprint_sha256(key.text()),
{
    key.key.fingerprint(ssh_key::HashAlg::Sha256).to_string()
}

/// `ssh_key::PrivateKey::from_openssh`: succeeds exactly when the name
/// `openssh_private_key_parses` holds of the text.
#[verifier::external_body]
pub(crate) fn parse_private_key(text: &str) -> (r: Result<SshPrivateKey, String>)
    ensures
        r is Ok <==> openssh_private_key_parses(text@),
        r matches Ok(k) ==> k.text() == text@,
{
    match ssh_key::PrivateKey::from_openssh(text) {
        Ok(key) => Ok(SshPrivateKey { text: text.to_string(), key }),
        Err(e) => Err(e.to_string()),
    }
}

/// Whether `PrivateKey::sign` with SHA-256 succeeds for the key (given as
/// OpenSSH text), the namespace and the message. It fails on an empty
/// namespace, on an encrypted key and on a key type that cannot sign.
pub uninterp spec fn ssh_sign_succeeds(key: Seq<char>, namespace: Seq<char>, msg: Seq<u8>) -> bool;

/// `SshSig::to_pem` with LF line endings of the signature that
/// `PrivateKey::sign` with SHA-256 made for the key (given as OpenSSH
/// text), the namespace and the message; `None` where encoding fails.
pub uninterp spec fn ssh_sig_pem(key: Seq<char>, namespace: Seq<char>, msg: Seq<u8>) -> Option<Seq<char>>;

/// A signature produced by this process, together with the key text, the
/// namespace and the message it was made from.
pub struct SshSigned {
    sig: ssh_key::SshSig,
    key_text: String,
    namespace: String,
    msg: Vec<u8>,
}

impl SshSigned {
    /// The OpenSSH text of the key that signed.
    pub closed spec fn key_text(&self) -> Seq<char> {
        self.key_text@
    }

    /// The namespace signed in.
    pub closed spec fn namespace(&self) -> Seq<char> {
        self.namespace@
    }

    /// The message signed.
    pub closed spec fn message(&self) -> Seq<u8> {
        self.msg@
    }
}

/// `ssh_key::PrivateKey::sign` with SHA-256: succeeds exactly when the name
/// `ssh_sign_succeeds` holds of the key's text, the namespace and the
/// message (signing is deterministic for the key types this crate builds
/// with), and keeps what it signed; an error's text is not stated.
#[verifier::external_body]
pub(crate) fn sign(key: &SshPrivateKey, namespace: &str, msg: &[u8]) -> (r: Result<SshSigned, String>)
    ensures
        r is Ok <==> ssh_sign_succeeds(key.text(), namespace@, msg@),
        r matches Ok(s) ==> s.key_text() == key.text() && s.namespace() == namespace@ && s.message() == msg@,
{
    match key.key.sign(namespace, ssh_key::HashAlg::Sha256, msg) {
        Ok(sig) => Ok(SshSigned { sig, key_text: key.text.clone(), namespace: namespace.to_string(), msg: msg.to_vec() }),
        Err(e) => Err(e.to_string()),
    }
}

/// `ssh_key::SshSig::to_pem` with LF line endings, named by `ssh_sig_pem`
/// of what was signed. The text written parses back with `SshSig::from_pem`
/// and verifies with the signing key's public half over the same namespace
/// and message, as `SshSig::sign` records that public key, namespace and
/// hash in the signature and `PublicKey::verify` checks them against it
/// (the crate's own sign-then-verify tests). An error's text is not stated.
#[verifier::external_body]
pub(crate) fn signature_pem(sig: &SshSigned) -> (r: Result<String, String>)
    ensures
        match ssh_sig_pem(sig.key_text(), sig.namespace(), sig.message()) {
            Some(t) => r matches Ok(p) && p@ == t,
            None => r is Err,
        },
        r matches Ok(p) ==> ssh_sig_pem_parses(p@),
        r matches Ok(p) ==> match ssh_private_key_public_openssh(sig.key_text()) {
            Some(pk) => ssh_signature_verifies(pk, sig.namespace(), sig.message(), p@),
            None => true,
        },
{
    match sig.sig.to_pem(ssh_key::LineEnding::LF) {
        Ok(pem) => Ok(pem),
        Err(e) => Err(e.to_string()),
    }
}

/// `ssh_key::PublicKey::to_openssh` of the key's public half, named by
/// `ssh_private_key_public_openssh` of the key's text; the text written
/// parses back with `PublicKey::from_openssh`.
#[verifier::external_body]
pub(crate) fn public_openssh(key: &SshPrivateKey) -> (r: Result<String, String>)
    ensures
        match ssh_private_key_public_openssh(key.text()) {
            Some(t) => r matches Ok(s) && s@ == t,
            None => r is Err,
        },
        r matches Ok(s) ==> openssh_public_key_parses(s@),
{
    match key.key.public_key().to_openssh() {
        Ok(s) => Ok(s),
        Err(e) => Err(e.to_string()),
    }
}

} // verus!
