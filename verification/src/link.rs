//! Assembling request URLs from an endpoint and its query parameters.

use vstd::prelude::*;

verus! {

/// The error that the `url` crate gives for text that is no absolute URL.
#[verifier::external_type_specification]
#[verifier::external_body]
pub struct ExParseError(url::ParseError);

/// The URL reached from `base` by adding `params` to its query, as
/// `url::Url::parse_with_params` serialises it; `None` where `base` is no
/// absolute URL.
pub uninterp spec fn url_with_params(base: Seq<char>, params: Seq<(Seq<char>, Seq<char>)>) -> Option<
    Seq<char>,
>;

/// The characters of a list of query parameters.
pub open spec fn params_view(params: Seq<(String, String)>) -> Seq<(Seq<char>, Seq<char>)> {
    Seq::new(params.len(), |i: int| (params[i].0@, params[i].1@))
}

/// The bases that a URL is assembled from: no `#` stands in them, so that
/// they have no fragment part, and they are at most 2^24 characters long.
pub open spec fn plain_base(base: Seq<char>) -> bool {
    &&& base.len() <= 0x0100_0000
    &&& forall|i: int| 0 <= i < base.len() ==> base[i] != '#'
}

/// `base` is no absolute URL.
#[derive(Clone, Copy, Debug, PartialEq, Eq, Structural)]
pub struct InvalidUrl;

/// Calls `Url::parse_with_params` of the `url` crate, the type that `reqwest`
/// hands on as `reqwest::Url`, and takes the URL as text. The crate holds
/// positions in a URL as 32-bit numbers and does not return where one does
/// not fit: when it opens the query of a base that is too long, and when it
/// puts a fragment back behind a query that has grown too long. Both are left
/// out by the bound on the base and by the base having no fragment. Trusted:
/// success and the text depend on the base and the parameters alone; the text
/// is named, not described.
#[verifier::external_body]
fn parse_with_params(base: &str, params: &Vec<(String, String)>) -> (r: Result<
    String,
    url::ParseError,
>)
    requires
        plain_base(base@),
    ensures
        r is Ok <==> url_with_params(base@, params_view(params@)) is Some,
        r matches Ok(text) ==> url_with_params(base@, params_view(params@)) == Some(text@),
{
    match url::Url::parse_with_params(base, params) {
        Ok(link) => Ok(link.into()),
        Err(e) => Err(e),
    }
}

/// The URL that adds `params`, in order, to the query of `base`, a base
/// without a fragment and of bounded length.
pub fn assemble(base: &str, params: &Vec<(String, String)>) -> (r: Result<String, InvalidUrl>)
    requires
        plain_base(base@),
    ensures
        match r {
            Ok(text) => url_with_params(base@, params_view(params@)) == Some(text@),
            Err(_) => url_with_params(base@, params_view(params@)) is None,
        },
{
    match parse_with_params(base, params) {
        Ok(text) => Ok(text),
        Err(_) => Err(InvalidUrl),
    }
}

} // verus!
