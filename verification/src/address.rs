//! The address of the server that a runner connects to.
use vstd::prelude::*;

verus! {

#[verifier::external_type_specification]
#[verifier::external_body]
pub struct ExUrl(url::Url);

#[verifier::external_type_specification]
#[verifier::external_body]
pub struct ExUrlParseError(url::ParseError);

/// The text of a URL: what `url::Url::as_str` gives.
pub uninterp spec fn url_serialization(u: url::Url) -> Seq<char>;

/// What `url::Url::parse` makes of `input`: the text of the absolute URL it
/// reads, or none where it does not take the input.
pub uninterp spec fn url_parse_text(input: Seq<char>) -> Option<Seq<char>>;

/// `url::Url::parse`. Trusted: the outcome is the named function of the
/// input alone, as the parser takes no base URL and no state, and the URL
/// given has that text. Which error comes back is not stated.
#[verifier::external_body]
fn parse_url(input: &str) -> (r: Result<url::Url, url::ParseError>)
    ensures
        match r {
            Ok(u) => url_parse_text(input@) == Some(url_serialization(u)),
            Err(_) => url_parse_text(input@) is None,
        },
{
    url::Url::parse(input)
}

/// `url::Url::as_str`. Trusted: the text is the named serialization of
/// the URL.
#[verifier::external_body]
fn url_text(u: &url::Url) -> (r: String)
    ensures
        r@ == url_serialization(*u),
{
    u.as_str().to_owned()
}

/// Why an address cannot be used.
#[derive(Debug)]
pub enum AddressError {
    /// It is not an absolute URL; the parser's reason.
    Invalid(url::ParseError),
}

/// A server's address, read as an absolute URL, with the URL's text.
#[derive(Debug)]
pub struct ServerAddress {
    pub url: url::Url,
    /// The URL as the parser writes it.
    pub text: String,
}

/// The server's address, read as an absolute URL.
pub fn parse_server_url(addr: &str) -> (r: Result<ServerAddress, AddressError>)
    ensures
        match r {
            Ok(a) => url_parse_text(addr@) == Some(a.text@) && url_serialization(a.url) == a.text@,
            Err(_) => url_parse_text(addr@) is None,
        },
{
    match parse_url(addr) {
        Ok(url) => {
            let text = url_text(&url);
            Ok(ServerAddress { url, text })
        },
        Err(e) => Err(AddressError::Invalid(e)),
    }
}

} // verus!
