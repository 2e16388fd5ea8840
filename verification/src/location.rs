//! URLs as text: normal form, resolution against a base, and the host.

use url::Url;
use vstd::prelude::*;

verus! {

/// `url::ParseError`: why a text is no URL. Nothing is read out of it.
#[verifier::external_type_specification]
#[verifier::external_body]
pub struct ExParseError(url::ParseError);

/// The serialization of the absolute URL that a text parses to, where it
/// parses.
pub uninterp spec fn spec_url_parse(input: Seq<char>) -> Option<Seq<char>>;

/// The serialization of the URL that `reference` resolves to against the
/// absolute URL `base`, where `base` parses and `reference` resolves.
pub uninterp spec fn spec_url_join(base: Seq<char>, reference: Seq<char>) -> Option<Seq<char>>;

/// The host of the absolute URL that a text parses to, where it parses and
/// has a host.
pub uninterp spec fn spec_url_host(input: Seq<char>) -> Option<Seq<char>>;

/// `Url::parse`, with the URL handed back as its serialization. Whether the
/// text parses, and to what, depends on the text alone.
#[verifier::external_body]
pub(crate) fn url_parse(input: &str) -> (res: Result<String, url::ParseError>)
    ensures
        res matches Ok(text) ==> spec_url_parse(input@) == Some(text@),
        res is Err ==> spec_url_parse(input@) is None,
{
    Url::parse(input).map(String::from)
}

/// `ParseOptions::parse` with `base` as the base URL, as `Url::join` does it,
/// with the URL handed back as its serialization. An error is that of parsing
/// `base` or of resolving `reference`.
#[verifier::external_body]
pub(crate) fn url_join(base: &str, reference: &str) -> (res: Result<String, url::ParseError>)
    ensures
        res matches Ok(text) ==> spec_url_join(base@, reference@) == Some(text@),
        res is Err ==> spec_url_join(base@, reference@) is None,
{
    let base = Url::parse(base)?;
    Url::options().base_url(Some(&base)).parse(reference).map(String::from)
}

/// `Url::host_str` of the URL that `Url::parse` makes of the text; `None`
/// where the text does not parse or the URL has no host.
#[verifier::external_body]
pub(crate) fn url_host(input: &str) -> (host: Option<String>)
    ensures
        host matches Some(text) ==> spec_url_host(input@) == Some(text@),
        host is None ==> spec_url_host(input@) is None,
{
    Url::parse(input).ok().and_then(|url| url.host_str().map(String::from))
}

} // verus!
