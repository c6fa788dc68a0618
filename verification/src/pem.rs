//! Certificates and private keys read from PEM text, for the TLS
//! configuration of a server.
use crate::error::{AnyError, IoErrorKind};
use rustls_pki_types::PrivateKeyDer;
use vstd::prelude::*;

verus! {

/// The encoding of a private key.
#[derive(Clone, Copy, Debug, PartialEq, Eq, Structural)]
pub enum KeyFormat {
    /// An RSA key (PKCS#1).
    Pkcs1,
    /// An elliptic-curve key (SEC1).
    Sec1,
    /// A PKCS#8 key.
    Pkcs8,
}

/// A private key: its encoding and its DER bytes.
pub struct PrivateKey {
    pub format: KeyFormat,
    pub der: Vec<u8>,
}

/// What `rustls_pemfile::certs` reads of `pem`, collected up to its first
/// error: the DER bytes of the certificates, in order, or the message of the
/// error met at the first malformed PEM section.
pub uninterp spec fn pem_certificates(pem: Seq<u8>) -> Result<Seq<Seq<u8>>, Seq<char>>;

/// What `rustls_pemfile::private_key` reads of `pem`: the encoding and the
/// DER bytes of its first private key, `None` when there is no key, or the
/// message of the error met at a malformed PEM section before it.
pub uninterp spec fn pem_private_key(pem: Seq<u8>) -> Result<Option<(KeyFormat, Seq<u8>)>, Seq<char>>;

/// Calls `rustls_pemfile::certs` on `pem` and collects the certificates as
/// DER bytes, or the message of the first error; both are named by
/// `pem_certificates`.
#[verifier::external_body]
fn read_certificates(pem: &[u8]) -> (res: Result<Vec<Vec<u8>>, String>)
    ensures
        res is Ok <==> pem_certificates(pem@) is Ok,
        res matches Ok(v) ==> (pem_certificates(pem@) matches Ok(certs) && certs == v@.map_values(|c: Vec<u8>| c@)),
        res matches Err(m) ==> (pem_certificates(pem@) matches Err(message) && message == m@),
{
    let mut reader: &[u8] = pem;
    rustls_pemfile::certs(&mut reader).map(|c| c.map(|c| c.to_vec()).map_err(|e| e.to_string())).collect()
}

/// Calls `rustls_pemfile::private_key` on `pem`, keeping the encoding and
/// the DER bytes of the key, or the message of the error; all are named by
/// `pem_private_key`.
#[verifier::external_body]
fn read_private_key(pem: &[u8]) -> (res: Result<Option<PrivateKey>, String>)
    ensures
        res is Ok <==> pem_private_key(pem@) is Ok,
        res matches Ok(None) ==> (pem_private_key(pem@) matches Ok(None)),
        res matches Ok(Some(k)) ==> (pem_private_key(pem@) matches Ok(Some(key)) && key == (k.format, k.der@)),
        res matches Err(m) ==> (pem_private_key(pem@) matches Err(message) && message == m@),
{
    let mut reader: &[u8] = pem;
    match rustls_pemfile::private_key(&mut reader) {
        Ok(Some(PrivateKeyDer::Pkcs1(k))) => Ok(Some(PrivateKey { format: KeyFormat::Pkcs1, der: k.secret_pkcs1_der().to_vec() })),
        Ok(Some(PrivateKeyDer::Sec1(k))) => Ok(Some(PrivateKey { format: KeyFormat::Sec1, der: k.secret_sec1_der().to_vec() })),
        Ok(Some(k)) => Ok(Some(PrivateKey { format: KeyFormat::Pkcs8, der: k.secret_der().to_vec() })),
        Ok(None) => Ok(None),
        Err(e) => Err(e.to_string()),
    }
}

/// The message of the error for a PEM text without a private key.
pub open spec fn no_private_key_message() -> Seq<char> {
    "No private key found in file"@
}

/// What loading certificates gives for what the PEM reader returned: the
/// certificates, or an error of kind `InvalidData` with the reader's message.
pub fn certificates_outcome(read: Result<Vec<Vec<u8>>, String>) -> (res: Result<Vec<Vec<u8>>, AnyError>)
    ensures
        match read {
            Ok(certs) => res == Ok::<Vec<Vec<u8>>, AnyError>(certs),
            Err(message) => res matches Err(e) && e.io_kind == Some(IoErrorKind::InvalidData)
                && e.message == message,
        },
{
    match read {
        Ok(certs) => Ok(certs),
        Err(message) => Err(AnyError::io(IoErrorKind::InvalidData, message)),
    }
}

/// What loading a private key gives for what the PEM reader returned: the
/// key; an error of kind `InvalidData` with the reader's message; or, when
/// there is no key, an error of kind `InvalidData` that says so.
pub fn private_key_outcome(read: Result<Option<PrivateKey>, String>) -> (res: Result<PrivateKey, AnyError>)
    ensures
        match read {
            Ok(Some(k)) => res == Ok::<PrivateKey, AnyError>(k),
            Ok(None) => res matches Err(e) && e.io_kind == Some(IoErrorKind::InvalidData)
                && e.message@ == no_private_key_message(),
            Err(message) => res matches Err(e) && e.io_kind == Some(IoErrorKind::InvalidData)
                && e.message == message,
        },
{
    match read {
        Ok(Some(k)) => Ok(k),
        Ok(None) => Err(AnyError::io(IoErrorKind::InvalidData, "No private key found in file".to_string())),
        Err(message) => Err(AnyError::io(IoErrorKind::InvalidData, message)),
    }
}

/// The certificates of a PEM text, as DER bytes in order, or an error of kind
/// `InvalidData` with the message of the first malformed section.
pub fn certificates_from_pem(pem: &[u8]) -> (res: Result<Vec<Vec<u8>>, AnyError>)
    ensures
        match pem_certificates(pem@) {
            Ok(certs) => res matches Ok(v) && v@.map_values(|c: Vec<u8>| c@) == certs,
            Err(message) => res matches Err(e) && e.io_kind == Some(IoErrorKind::InvalidData)
                && e.message@ == message,
        },
{
    certificates_outcome(read_certificates(pem))
}

/// The first private key of a PEM text; an error of kind `InvalidData` with
/// the message of a malformed section before it, or one that says that there
/// is no key.
pub fn private_key_from_pem(pem: &[u8]) -> (res: Result<PrivateKey, AnyError>)
    ensures
        match pem_private_key(pem@) {
            Ok(Some((format, der))) => res matches Ok(k) && k.format == format && k.der@ == der,
            Ok(None) => res matches Err(e) && e.io_kind == Some(IoErrorKind::InvalidData)
                && e.message@ == no_private_key_message(),
            Err(message) => res matches Err(e) && e.io_kind == Some(IoErrorKind::InvalidData)
                && e.message@ == message,
        },
{
    private_key_outcome(read_private_key(pem))
}

} // verus!
