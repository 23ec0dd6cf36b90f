//! Certificates and keys in PEM, from the `rustls-pemfile` crate.
use tokio_rustls::rustls::pki_types::PrivateKeyDer;
use vstd::prelude::*;

verus! {

/// A private key.
#[verifier::external_type_specification]
#[verifier::external_body]
pub struct ExPrivateKeyDer<'a>(tokio_rustls::rustls::pki_types::PrivateKeyDer<'a>);

/// The certificates that `rustls_pemfile::certs` reads, in their order, or why they cannot be
/// read, in words.
pub uninterp spec fn pem_certificates(pem: Seq<u8>) -> Result<Seq<Seq<u8>>, Seq<char>>;

/// The first private key that `rustls_pemfile::private_key` reads, if there is one, or why none
/// can be read, in words.
pub uninterp spec fn pem_private_key(pem: Seq<u8>) -> Result<
    Option<PrivateKeyDer<'static>>,
    Seq<char>,
>;

/// The contents of byte vectors.
pub open spec fn contents(all: Seq<Vec<u8>>) -> Seq<Seq<u8>> {
    all.map_values(|bytes: Vec<u8>| bytes@)
}

/// `rustls_pemfile::certs`, up to the first error. What it reads depends on the bytes alone.
#[verifier::external_body]
pub(crate) fn read_certs(pem: &[u8]) -> (res: Result<Vec<Vec<u8>>, String>)
    ensures
        match (pem_certificates(pem@), res) {
            (Ok(certs), Ok(read)) => contents(read@) == certs,
            (Err(reason), Err(words)) => words@ == reason,
            _ => false,
        },
{
    let mut reader = pem;
    rustls_pemfile::certs(&mut reader)
        .map(|cert| cert.map(|der| der.to_vec()).map_err(|error| error.to_string()))
        .collect()
}

/// `rustls_pemfile::private_key`. What it reads depends on the bytes alone.
#[verifier::external_body]
pub(crate) fn read_key(pem: &[u8]) -> (res: Result<Option<PrivateKeyDer<'static>>, String>)
    ensures
        match (pem_private_key(pem@), res) {
            (Ok(key), Ok(read)) => read == key,
            (Err(reason), Err(words)) => words@ == reason,
            _ => false,
        },
{
    let mut reader = pem;
    rustls_pemfile::private_key(&mut reader).map_err(|error| error.to_string())
}

} // verus!
