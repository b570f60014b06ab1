use vstd::prelude::*;
use vstd::string::*;
use crate::error::ErrorWrapper;
use crate::text::{decimal, push_decimal};

verus! {

/// A parsed URL of the `url` crate, as reqwest re-exports it.
#[verifier::external_type_specification]
#[verifier::external_body]
pub struct ExUrl(reqwest::Url);

/// The `url` crate's parse error, as reqwest re-exports it.
#[verifier::external_type_specification]
#[verifier::external_body]
pub struct ExUrlError(reqwest::UrlError);

/// Whether the URL parser accepts the text.
pub uninterp spec fn url_accepted(text: Seq<char>) -> bool;

/// Relies on `url::Url::parse` (re-exported by reqwest as `Url`): it succeeds
/// exactly on the texts that it accepts, which depends on the text alone.
#[verifier::external_body]
fn parse_url(text: &str) -> (r: Result<reqwest::Url, reqwest::UrlError>)
    ensures
        r is Ok == url_accepted(text@),
{
    reqwest::Url::parse(text)
}

/// The address of request `index`: the base, a slash, the index in decimal.
pub open spec fn indexed_url(base: Seq<char>, index: nat) -> Seq<char> {
    base + seq!['/'] + decimal(index)
}

/// Builds the address of request `index`.
pub fn target_string(base: &str, index: usize) -> (r: String)
    ensures
        r@ == indexed_url(base@, index as nat),
{
    let mut out = String::from_str(base);
    out.append("/");
    proof { reveal_strlit("/"); }
    push_decimal(&mut out, index as u128);
    assert(out@ =~= indexed_url(base@, index as nat));
    out
}

/// Parses the address of a request. A text that is not a URL becomes a
/// failure of that request, which carries the text.
pub fn parse_target(text: &str) -> (r: Result<reqwest::Url, ErrorWrapper>)
    ensures
        r is Ok <==> url_accepted(text@),
        r is Err ==> (r->Err_0 matches ErrorWrapper::InvalidUrl { text: t } && t@ == text@),
{
    match parse_url(text) {
        Ok(url) => Ok(url),
        Err(_) => Err(ErrorWrapper::InvalidUrl { text: String::from_str(text) }),
    }
}

} // verus!
