//! The parts of an address, from the `url` crate.
use vstd::prelude::*;

verus! {

/// The host and the port that `Url::parse` reads in an address, each where the address has
/// one; or why the text is no address, in words. A port that is the default of the address's
/// scheme counts as none.
pub uninterp spec fn url_parts(text: Seq<char>) -> Result<
    (Option<Seq<char>>, Option<u16>),
    Seq<char>,
>;

/// `Url::parse`, then `Url::host_str` and `Url::port`. What they give depends on the text
/// alone.
#[verifier::external_body]
pub(crate) fn read_url(text: &str) -> (res: Result<(Option<String>, Option<u16>), String>)
    ensures
        match (url_parts(text@), res) {
            (Ok((Some(host), port)), Ok((Some(h), p))) => h@ == host && p == port,
            (Ok((None, port)), Ok((None, p))) => p == port,
            (Err(reason), Err(words)) => words@ == reason,
            _ => false,
        },
{
    match url::Url::parse(text) {
        Ok(url) => Ok((url.host_str().map(|host| host.to_string()), url.port())),
        Err(error) => Err(error.to_string()),
    }
}

} // verus!
