//! Stream addresses: what the client reads of a URL, parsed by the `url` crate.
use vstd::prelude::*;
use url::ParseError;

verus! {

#[verifier::external_type_specification]
#[verifier::external_body]
pub struct ExParseError(ParseError);

/// A URL as the client uses it: its text, its host, its port (given or the
/// scheme's default) and its path.
#[derive(Debug, PartialEq)]
pub struct StreamUrl {
    pub text: String,
    pub host: Option<String>,
    pub port: Option<u16>,
    pub path: String,
}

/// The text, host, port and path of a URL, as plain values.
pub type UrlParts = (Seq<char>, Option<Seq<char>>, Option<u16>, Seq<char>);

pub open spec fn opt_text(o: Option<String>) -> Option<Seq<char>> {
    match o {
        Some(s) => Some(s@),
        None => None,
    }
}

impl View for StreamUrl {
    type V = UrlParts;

    open spec fn view(&self) -> UrlParts {
        (self.text@, opt_text(self.host), self.port, self.path@)
    }
}

impl Clone for StreamUrl {
    fn clone(&self) -> (res: Self)
        ensures
            res@ == self@,
    {
        let host = match &self.host {
            Some(h) => Some(h.clone()),
            None => None,
        };
        StreamUrl { text: self.text.clone(), host, port: self.port, path: self.path.clone() }
    }
}

/// What `url::Url::parse` makes of `input`, reduced to the text
/// (`Url::as_str`), host (`Url::host_str`), port (`Url::port_or_known_default`)
/// and path (`Url::path`) of the parsed URL; `None` when parsing fails.
pub uninterp spec fn parsed_url(input: Seq<char>) -> Option<UrlParts>;

/// Calls `url::Url::parse` on `input` and, on success, reads the parsed URL's
/// `as_str`, `host_str`, `port_or_known_default` and `path`. Trusted: the result
/// is `Ok` exactly when the name `parsed_url` has a value for `input`, and then
/// holds that value; the parse error is carried as it is, and which variant it is
/// is left unsaid.
#[verifier::external_body]
fn parse_url(input: &str) -> (res: Result<StreamUrl, ParseError>)
    ensures
        res is Ok <==> parsed_url(input@) is Some,
        res matches Ok(u) ==> u@ == parsed_url(input@).unwrap(),
{
    match url::Url::parse(input) {
        Ok(url) => {
            let host = match url.host_str() {
                Some(h) => Some(h.to_string()),
                None => None,
            };
            Ok(StreamUrl { text: url.as_str().to_string(), host, port: url.port_or_known_default(), path: url.path().to_string() })
        },
        Err(error) => Err(error),
    }
}

impl StreamUrl {
    /// Parses an absolute URL.
    pub fn parse(input: &str) -> (res: Result<StreamUrl, ParseError>)
        ensures
            res is Ok <==> parsed_url(input@) is Some,
            res matches Ok(u) ==> u@ == parsed_url(input@).unwrap(),
    {
        parse_url(input)
    }
}

} // verus!
