//! Reading keys and token headers, from the `jsonwebtoken` crate.
use jsonwebtoken::DecodingKey;
use vstd::prelude::*;

verus! {

/// A key that tokens are verified with.
#[verifier::external_type_specification]
#[verifier::external_body]
pub struct ExDecodingKey(jsonwebtoken::DecodingKey);

/// The key that `DecodingKey::from_rsa_pem` reads, if there is one.
pub uninterp spec fn rsa_pem_key(pem: Seq<u8>) -> Option<DecodingKey>;

/// The key that `DecodingKey::from_ec_pem` reads, if there is one.
pub uninterp spec fn ec_pem_key(pem: Seq<u8>) -> Option<DecodingKey>;

/// The key that `DecodingKey::from_ed_pem` reads, if there is one.
pub uninterp spec fn ed_pem_key(pem: Seq<u8>) -> Option<DecodingKey>;

/// The key identifier that `decode_header` finds in the header of a token, where there is one
/// and the header can be read; otherwise why it cannot, in words.
pub uninterp spec fn token_key_id(token: Seq<char>) -> Result<Option<Seq<char>>, Seq<char>>;

/// `DecodingKey::from_rsa_pem` reads an RSA key. What it reads depends on the bytes alone.
#[verifier::external_body]
pub(crate) fn read_rsa_pem(pem: &[u8]) -> (res: Option<DecodingKey>)
    ensures
        res == rsa_pem_key(pem@),
{
    DecodingKey::from_rsa_pem(pem).ok()
}

/// `DecodingKey::from_ec_pem` reads a key of an elliptic curve. What it reads depends on the
/// bytes alone.
#[verifier::external_body]
pub(crate) fn read_ec_pem(pem: &[u8]) -> (res: Option<DecodingKey>)
    ensures
        res == ec_pem_key(pem@),
{
    DecodingKey::from_ec_pem(pem).ok()
}

/// `DecodingKey::from_ed_pem` reads a key of an Edwards curve. What it reads depends on the
/// bytes alone.
#[verifier::external_body]
pub(crate) fn read_ed_pem(pem: &[u8]) -> (res: Option<DecodingKey>)
    ensures
        res == ed_pem_key(pem@),
{
    DecodingKey::from_ed_pem(pem).ok()
}

/// `jsonwebtoken::decode_header` reads the header of a token without verifying anything; of
/// the header, its key identifier is handed on. What it reads, or says of a token that it
/// cannot read, depends on the token alone.
#[verifier::external_body]
pub(crate) fn read_key_id(token: &str) -> (res: Result<Option<String>, String>)
    ensures
        match (token_key_id(token@), res) {
            (Ok(None), Ok(None)) => true,
            (Ok(Some(id)), Ok(Some(read))) => read@ == id,
            (Err(reason), Err(words)) => words@ == reason,
            _ => false,
        },
{
    match jsonwebtoken::decode_header(token) {
        Ok(header) => Ok(header.kid),
        Err(error) => Err(error.to_string()),
    }
}

} // verus!
