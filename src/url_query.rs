//! Building a URL with escaped query parameters, through the url crate.
use vstd::prelude::*;

verus! {

/// url's parse error, carried as an opaque value.
#[verifier::external_type_specification]
#[verifier::external_body]
pub struct ExParseError(url::ParseError);

/// The text of the URL that url makes of `base` with the `(name, value)` pairs
/// appended as a form-encoded query, or `None` where `base` is not a URL.
pub uninterp spec fn url_with_params(base: Seq<char>, params: Seq<(Seq<char>, Seq<char>)>) -> Option<
    Seq<char>,
>;

/// The query pairs as characters.
pub open spec fn params_view(params: Seq<(String, String)>) -> Seq<(Seq<char>, Seq<char>)> {
    params.map_values(|p: (String, String)| (p.0@, p.1@))
}

/// Relies on url::Url::parse_with_params, then Display of the `Url`: parses
/// `base` and appends each pair percent-encoded; it fails only where `base`
/// does not parse.
#[verifier::external_body]
pub(crate) fn parse_with_params(base: &str, params: &Vec<(String, String)>) -> (r: Result<
    String,
    url::ParseError,
>)
    ensures
        match url_with_params(base@, params_view(params@)) {
            Some(u) => r is Ok && r->Ok_0@ == u,
            None => r is Err,
        },
{
    url::Url::parse_with_params(base, params.iter()).map(|u| u.to_string())
}

} // verus!
