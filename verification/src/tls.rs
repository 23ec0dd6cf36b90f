//! What the server needs to speak TLS.
use crate::trusted::tls::{contents, pem_certificates, pem_private_key, read_certs, read_key};
use tokio_rustls::rustls::pki_types::PrivateKeyDer;
use vstd::prelude::*;
use vstd::string::StrSliceExecFns;
use vstd::utf8::encode_utf8;

verus! {

/// Why the server cannot speak TLS.
#[derive(Debug)]
pub enum TlsError {
    Certificates(String),
    Key(String),
    /// There is no key.
    NoKey,
}

/// What a `TlsError` says.
pub enum TlsErrorView {
    Certificates(Seq<char>),
    Key(Seq<char>),
    NoKey,
}

impl View for TlsError {
    type V = TlsErrorView;

    open spec fn view(&self) -> TlsErrorView {
        match self {
            TlsError::Certificates(reason) => TlsErrorView::Certificates(reason@),
            TlsError::Key(reason) => TlsErrorView::Key(reason@),
            TlsError::NoKey => TlsErrorView::NoKey,
        }
    }
}

/// The certificates of the server, each in DER, from the contents of its certificate file.
pub fn read_certificates(pem: &[u8]) -> (res: Result<Vec<Vec<u8>>, TlsError>)
    ensures
        match (pem_certificates(pem@), res) {
            (Ok(certs), Ok(read)) => contents(read@) == certs,
            (Err(reason), Err(e)) => e@ == TlsErrorView::Certificates(reason),
            _ => false,
        },
{
    match read_certs(pem) {
        Ok(certs) => Ok(certs),
        Err(reason) => Err(TlsError::Certificates(reason)),
    }
}

/// The key of the server, by what was read of its key file.
pub fn key_of(read: Result<Option<PrivateKeyDer<'static>>, String>) -> (res: Result<
    PrivateKeyDer<'static>,
    TlsError,
>)
    ensures
        match (read, res) {
            (Ok(Some(key)), Ok(k)) => k == key,
            (Ok(None), Err(e)) => e@ == TlsErrorView::NoKey,
            (Err(reason), Err(e)) => e@ == TlsErrorView::Key(reason@),
            _ => false,
        },
{
    match read {
        Ok(Some(key)) => Ok(key),
        Ok(None) => Err(TlsError::NoKey),
        Err(reason) => Err(TlsError::Key(reason)),
    }
}

/// The key of the server, from the contents of its key file.
pub fn read_private_key(pem: &[u8]) -> (res: Result<PrivateKeyDer<'static>, TlsError>)
    ensures
        match (pem_private_key(pem@), res) {
            (Ok(Some(key)), Ok(k)) => k == key,
            (Ok(None), Err(e)) => e@ == TlsErrorView::NoKey,
            (Err(reason), Err(e)) => e@ == TlsErrorView::Key(reason),
            _ => false,
        },
{
    key_of(read_key(pem))
}

/// The protocols that the server speaks over TLS, best first.
pub fn alpn_protocols() -> (res: Vec<Vec<u8>>)
    ensures
        contents(res@) == seq![encode_utf8("h2"@), encode_utf8("http/1.1"@)],
{
    let mut protocols: Vec<Vec<u8>> = Vec::new();
    protocols.push("h2".as_bytes_vec());
    protocols.push("http/1.1".as_bytes_vec());
    assert(contents(protocols@) =~= seq![encode_utf8("h2"@), encode_utf8("http/1.1"@)]);
    protocols
}

} // verus!
