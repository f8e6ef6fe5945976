use vstd::prelude::*;

verus! {

#[verifier::external_type_specification]
#[verifier::external_body]
pub struct ExError(reqwest::Error);

#[verifier::external_type_specification]
#[verifier::external_body]
pub struct ExResponse(reqwest::Response);

#[verifier::external_type_specification]
#[verifier::external_body]
pub struct ExRequest(reqwest::Request);

#[verifier::external_type_specification]
#[verifier::external_body]
pub struct ExClient(reqwest::Client);

/// Relies on reqwest's `Display` for its `Error`: every kind of error writes a
/// non-empty description ("builder error", "error sending request", ...).
#[verifier::external_body]
pub(crate) fn describe(e: &reqwest::Error) -> (r: String)
    ensures
        r@.len() > 0,
{
    format!("{}", e)
}

/// Whether a GET request can be built for `url`: it parses as a URL that has
/// a host. This depends on the text of `url` alone.
pub uninterp spec fn get_url_builds(url: Seq<char>) -> bool;

/// Relies on reqwest's `Client::get` and `RequestBuilder::build`: a GET
/// request against `client`, or the error met while parsing `url`. Whether
/// it succeeds is decided by `IntoUrl` on the text of `url` alone.
#[verifier::external_body]
pub(crate) fn build_get(client: &reqwest::Client, url: &str) -> (r: Result<reqwest::Request, reqwest::Error>)
    ensures
        (r is Ok) == get_url_builds(url@),
{
    client.get(url).build()
}

} // verus!
