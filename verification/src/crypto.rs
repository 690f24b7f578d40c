//! Digests, fingerprints, certificate pinning, self-signed identities and
//! private keys read from PEM.
use vstd::prelude::*;
use crate::text::{
    hex_lower, hex_encode, eq_ignoring_ascii_case, equal_ignoring_ascii_case,
    law_ascii_case_insensitive_match_is_an_equivalence,
};
use crate::types::{EngineError, SelfSignedIdentity};
use rustls::pki_types::PrivateKeyDer as Der;

verus! {

/// The SHA-256 digest of `data`.
pub uninterp spec fn sha256(data: Seq<u8>) -> Seq<u8>;

/// Computes the SHA-256 digest of `data` with `sha2::Sha256::digest`.
/// Trusted: the result is `sha256(data)`, 32 bytes long, as the digest
/// function and the width of SHA-256 say.
#[verifier::external_body]
pub(crate) fn sha256_digest(data: &[u8]) -> (d: Vec<u8>)
    ensures
        d@ == sha256(data@),
        d@.len() == 32,
{
    <sha2::Sha256 as sha2::Digest>::digest(data).to_vec()
}

/// The lower-case hex text of the SHA-256 digest of `data`: the
/// fingerprint of a certificate or a key.
pub fn sha256_hex(data: &[u8]) -> (s: String)
    ensures
        s@ == hex_lower(sha256(data@)),
{
    let d = sha256_digest(data);
    hex_encode(d.as_slice())
}

/// The DER bytes of the SubjectPublicKeyInfo of the DER certificate `der`,
/// or `None` where `der` does not parse as an X.509 certificate.
pub uninterp spec fn der_certificate_spki(der: Seq<u8>) -> Option<Seq<u8>>;

/// Whether `part` stands, byte for byte and in one piece, somewhere in
/// `whole`.
pub open spec fn occurs_in(part: Seq<u8>, whole: Seq<u8>) -> bool {
    exists|i: int|
        0 <= i && i + part.len() <= whole.len() && #[trigger] whole.subrange(i, i + part.len())
            == part
}

/// Parses `cert_der` with `X509Certificate::from_der` of x509-parser and
/// copies out the raw SubjectPublicKeyInfo. Trusted: the outcome is the
/// one `der_certificate_spki` names for these bytes, and, as the parser's
/// source shows (the `raw` field is the slice of the input from the start
/// of the SubjectPublicKeyInfo's SEQUENCE header to the end of its public
/// key), the bytes are a non-empty piece of `cert_der`. That their first
/// byte is the SEQUENCE tag 0x30 is left unsaid: the parser also takes the
/// long form of the tag.
#[verifier::external_body]
fn parse_spki(
    cert_der: &[u8],
) -> (r: Result<Vec<u8>, x509_parser::nom::Err<x509_parser::error::X509Error>>)
    ensures
        match r {
            Ok(v) => {
                &&& der_certificate_spki(cert_der@) == Some(v@)
                &&& v@.len() > 0
                &&& occurs_in(v@, cert_der@)
            },
            Err(_) => der_certificate_spki(cert_der@) is None,
        },
{
    match <x509_parser::certificate::X509Certificate as x509_parser::prelude::FromDer<
        x509_parser::error::X509Error,
    >>::from_der(cert_der) {
        Ok((_, cert)) => Ok(cert.tbs_certificate.subject_pki.raw.to_vec()),
        Err(e) => Err(e),
    }
}

/// The DER SubjectPublicKeyInfo of a DER certificate, a non-empty piece
/// of the certificate's bytes; a certificate that does not parse gives
/// `X509SpkiError`.
pub fn extract_spki_der(cert_der: &[u8]) -> (r: Result<Vec<u8>, EngineError>)
    ensures
        match der_certificate_spki(cert_der@) {
            Some(k) => r matches Ok(v) && v@ == k,
            None => r matches Err(e) && e is X509SpkiError,
        },
        r matches Ok(v) ==> v@.len() > 0 && occurs_in(v@, cert_der@),
{
    match parse_spki(cert_der) {
        Ok(v) => Ok(v),
        Err(e) => Err(EngineError::X509SpkiError(e)),
    }
}

/// The PEM text that rcgen writes for the DER certificate `der`: one
/// `CERTIFICATE` block holding `der`. Its line ending is fixed when the
/// program is built (LF, or CRLF on Windows), so a build gives one text
/// for each certificate.
pub uninterp spec fn pem_certificate_text(der: Seq<u8>) -> Seq<char>;

/// Whether the subject alternative names of the DER certificate `der` are
/// the entries of `names`, in order, each read as an IP address where it
/// parses as one and as a DNS name otherwise.
pub uninterp spec fn certificate_names(der: Seq<u8>, names: Seq<Seq<char>>) -> bool;

/// Whether the PEM text `key_pem` holds the private key whose public key
/// is the SubjectPublicKeyInfo of the DER certificate `der`, and that
/// signed it.
pub uninterp spec fn certificate_key(key_pem: Seq<char>, der: Seq<u8>) -> bool;

/// The texts of `names`.
pub open spec fn name_texts(names: Seq<String>) -> Seq<Seq<char>> {
    names.map_values(|n: String| n@)
}

/// Generates a key pair and a certificate for it, self-signed, valid for
/// `subject_alt_names`, with `rcgen::generate_simple_self_signed`, and
/// returns the certificate's PEM (`Certificate::pem`), the key's PEM
/// (`KeyPair::serialize_pem`) and the certificate's DER (`Certificate::der`).
/// Trusted: as rcgen's source shows, the PEM is that of the DER, the
/// certificate names the given subject alternative names, and it holds
/// and is signed by the returned key. The key itself is random: nothing
/// more is stated of the bytes.
#[verifier::external_body]
fn generate_certified_key(
    subject_alt_names: Vec<String>,
) -> (r: Result<(String, String, Vec<u8>), rcgen::Error>)
    ensures
        r matches Ok((cert_pem, key_pem, cert_der)) ==> {
            &&& cert_pem@ == pem_certificate_text(cert_der@)
            &&& certificate_names(cert_der@, name_texts(subject_alt_names@))
            &&& certificate_key(key_pem@, cert_der@)
        },
{
    match rcgen::generate_simple_self_signed(subject_alt_names) {
        Ok(k) => Ok((k.cert.pem(), k.signing_key.serialize_pem(), k.cert.der().to_vec())),
        Err(e) => Err(e),
    }
}

/// Assembles an identity from a freshly generated certificate: the
/// certificate must parse, so that its public key can be pinned.
pub fn identity_from_parts(cert_pem: String, key_pem: String, cert_der: Vec<u8>) -> (r: Result<
    SelfSignedIdentity,
    EngineError,
>)
    ensures
        der_certificate_spki(cert_der@) is Some ==> (r matches Ok(id) && id.cert_pem@ == cert_pem@
            && id.key_pem@ == key_pem@ && id.cert_der@ == cert_der@),
        der_certificate_spki(cert_der@) is None ==> (r matches Err(e) && e is X509SpkiError),
{
    // Fingerprints of the whole certificate and of its public key alone.
    let _cert_fingerprint_sha256 = sha256_hex(cert_der.as_slice());
    let spki_der = match extract_spki_der(cert_der.as_slice()) {
        Ok(v) => v,
        Err(e) => return Err(e),
    };
    let _pubkey_fingerprint_sha256 = sha256_hex(spki_der.as_slice());
    Ok(SelfSignedIdentity { cert_pem, key_pem, cert_der })
}

/// Generates a self-signed certificate and key for `subject_alt_names`
/// (such as "localhost"). The key is random; whatever comes back, an
/// identity that is returned holds the PEM of its certificate, a
/// certificate that parses and names exactly the given subject alternative
/// names, and that certificate's private key; a failure is either the
/// generation's or the parse's.
pub fn generate_self_signed_identity(subject_alt_names: Vec<String>) -> (r: Result<
    SelfSignedIdentity,
    EngineError,
>)
    ensures
        r matches Ok(id) ==> {
            &&& id.cert_pem@ == pem_certificate_text(id.cert_der@)
            &&& certificate_names(id.cert_der@, name_texts(subject_alt_names@))
            &&& certificate_key(id.key_pem@, id.cert_der@)
            &&& der_certificate_spki(id.cert_der@) is Some
        },
        r matches Err(e) ==> (e is GenerateSelfSignedCertificateError || e is X509SpkiError),
{
    let (cert_pem, key_pem, cert_der) = match generate_certified_key(subject_alt_names) {
        Ok(parts) => parts,
        Err(e) => return Err(EngineError::GenerateSelfSignedCertificateError(e)),
    };
    identity_from_parts(cert_pem, key_pem, cert_der)
}

/// The message of a pinning failure.
pub open spec fn mismatch_message(expected: Seq<char>, actual: Seq<char>) -> Seq<char> {
    "certificate fingerprint mismatch: expected "@ + expected + ", got "@ + actual
}

/// Accepts a peer certificate only when its SHA-256 fingerprint is the
/// pinned one, in place of validation against certificate authorities.
#[derive(Debug)]
pub struct FingerprintPinningVerifier {
    pub expected_fingerprint_hex: String,
}

impl FingerprintPinningVerifier {
    /// Whether the DER certificate `cert_der` has the pinned fingerprint
    /// (hex compared without regard to case); otherwise the message that
    /// names both fingerprints.
    pub fn check(&self, cert_der: &[u8]) -> (r: Result<(), String>)
        ensures
            r is Ok <==> eq_ignoring_ascii_case(
                hex_lower(sha256(cert_der@)),
                self.expected_fingerprint_hex@,
            ),
            r matches Err(m) ==> m@ == mismatch_message(
                self.expected_fingerprint_hex@,
                hex_lower(sha256(cert_der@)),
            ),
            r matches Err(m) ==> m@ == "certificate fingerprint mismatch: expected "@
                + self.expected_fingerprint_hex@ + ", got "@ + hex_lower(sha256(cert_der@)),
    {
        let actual = sha256_hex(cert_der);
        if equal_ignoring_ascii_case(actual.as_str(), self.expected_fingerprint_hex.as_str()) {
            Ok(())
        } else {
            let mut m = String::from_str("certificate fingerprint mismatch: expected ");
            m.append(self.expected_fingerprint_hex.as_str());
            m.append(", got ");
            m.append(actual.as_str());
            Err(m)
        }
    }
}

/// A verifier pinned to a certificate's fingerprint, as `sha256_hex`
/// writes it or with any letters in another case, accepts that
/// certificate, and refuses every certificate whose fingerprint differs
/// from it in more than letter case.
pub proof fn law_pinned_certificate_is_accepted(der: Seq<u8>, other: Seq<u8>, pinned: Seq<char>)
    requires
        eq_ignoring_ascii_case(pinned, hex_lower(sha256(der))),
    ensures
        eq_ignoring_ascii_case(hex_lower(sha256(der)), pinned),
        eq_ignoring_ascii_case(hex_lower(sha256(other)), pinned) ==> eq_ignoring_ascii_case(
            hex_lower(sha256(other)),
            hex_lower(sha256(der)),
        ),
{
    law_ascii_case_insensitive_match_is_an_equivalence(
        hex_lower(sha256(other)),
        pinned,
        hex_lower(sha256(der)),
    );
    law_ascii_case_insensitive_match_is_an_equivalence(
        pinned,
        hex_lower(sha256(der)),
        hex_lower(sha256(der)),
    );
}

/// The encoding of a private key's DER bytes.
#[derive(Debug, Clone, Copy, PartialEq, Eq, Structural)]
pub enum KeyFormat {
    /// An RSA key (PKCS#1).
    Pkcs1,
    /// An elliptic-curve key (SEC1).
    Sec1,
    /// A key of any algorithm (PKCS#8).
    Pkcs8,
}

/// The number that stands for a key format in `pem_private_key`.
pub open spec fn format_code(f: KeyFormat) -> u8 {
    match f {
        KeyFormat::Pkcs1 => 1,
        KeyFormat::Sec1 => 2,
        KeyFormat::Pkcs8 => 3,
    }
}

/// A private key: its format and its DER bytes.
#[derive(Debug)]
pub struct PrivateKey {
    pub format: KeyFormat,
    pub der: Vec<u8>,
}

/// What reading the first private key from the PEM text `pem` finds:
/// `None` where the text cannot be read as PEM, `Some(None)` where it holds
/// no private key, and otherwise the key's format (1 for PKCS#1, 2 for
/// SEC1, 3 for PKCS#8) and DER bytes.
pub uninterp spec fn pem_private_key(pem: Seq<char>) -> Option<Option<(u8, Seq<u8>)>>;

/// Reads the first private key (PKCS#1, PKCS#8 or SEC1) from the PEM text
/// `pem` with `rustls_pemfile::private_key`, and copies out its format and
/// DER bytes (`PrivateKeyDer::secret_der`). Trusted: the outcome is the
/// one `pem_private_key` names for the text.
#[verifier::external_body]
fn read_private_key(pem: &str) -> (r: Result<Option<PrivateKey>, std::io::Error>)
    ensures
        match r {
            Err(_) => pem_private_key(pem@) is None,
            Ok(None) => pem_private_key(pem@) == Some(None::<(u8, Seq<u8>)>),
            Ok(Some(k)) => pem_private_key(pem@) == Some(Some((format_code(k.format), k.der@))),
        },
{
    let key = match rustls_pemfile::private_key(&mut std::io::Cursor::new(pem.as_bytes())) {
        Ok(Some(k)) => k,
        Ok(None) => return Ok(None),
        Err(e) => return Err(e),
    };
    let format = match &key {
        Der::Pkcs1(_) => KeyFormat::Pkcs1,
        Der::Sec1(_) => KeyFormat::Sec1,
        Der::Pkcs8(_) => KeyFormat::Pkcs8,
        // The enum is marked non-exhaustive; these three are all its variants.
        _ => return Ok(None),
    };
    Ok(Some(PrivateKey { format, der: key.secret_der().to_vec() }))
}

/// The private key of the PEM text `key_pem`, for the TLS server.
pub fn load_private_key(key_pem: &str) -> (r: Result<PrivateKey, EngineError>)
    ensures
        match pem_private_key(key_pem@) {
            Some(Some((code, der))) => r matches Ok(k) && format_code(k.format) == code && k.der@
                == der,
            Some(None) => r matches Err(e) && e matches EngineError::TlsSetupError(m) && m@
                == "no private key found in PEM"@,
            None => r matches Err(e) && e matches EngineError::TlsSetupError(m) && m@
                == "failed to parse private key"@,
        },
{
    match read_private_key(key_pem) {
        Err(_) => Err(EngineError::TlsSetupError(String::from_str("failed to parse private key"))),
        Ok(None) => Err(
            EngineError::TlsSetupError(String::from_str("no private key found in PEM")),
        ),
        Ok(Some(k)) => Ok(k),
    }
}

} // verus!
