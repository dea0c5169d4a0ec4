use vstd::prelude::*;

verus! {

/// The scheme and the serialised path of the URL written `s`, or nothing
/// when `s` is not a URL.
pub uninterp spec fn parsed_url(s: Seq<char>) -> Option<(Seq<char>, Seq<char>)>;

/// The text `s` with each `%xx` escape replaced by its byte, or nothing when
/// the bytes that result are not UTF-8.
pub uninterp spec fn percent_decoded(s: Seq<char>) -> Option<Seq<char>>;

/// Relies on url::Url::parse, then Url::scheme and Url::path: the scheme and
/// the serialised path of a URL, or nothing when the text is no URL.
#[verifier::external_body]
fn split_url(s: &str) -> (r: Option<(String, String)>)
    ensures
        match r {
            Some(p) => parsed_url(s@) == Some((p.0@, p.1@)),
            None => parsed_url(s@) is None,
        },
{
    match url::Url::parse(s) {
        Ok(u) => Some((u.scheme().to_string(), u.path().to_string())),
        Err(_) => None,
    }
}

/// Relies on percent_encoding::percent_decode_str and
/// PercentDecode::decode_utf8: the text with its escapes decoded, or nothing
/// when the decoded bytes are not UTF-8.
#[verifier::external_body]
fn percent_decode(s: &str) -> (r: Option<String>)
    ensures
        match r {
            Some(d) => percent_decoded(s@) == Some(d@),
            None => percent_decoded(s@) is None,
        },
{
    match percent_encoding::percent_decode_str(s).decode_utf8() {
        Ok(d) => Some(d.into_owned()),
        Err(_) => None,
    }
}

/// The scheme and decoded path of the URL written `s`, when it is one and
/// its path decodes.
pub open spec fn url_parts(s: Seq<char>) -> Option<(Seq<char>, Seq<char>)> {
    match parsed_url(s) {
        Some(p) => match percent_decoded(p.1) {
            Some(path) => Some((p.0, path)),
            None => None,
        },
        None => None,
    }
}

/// A parsed URL, holding what the loaders read of it: the scheme and the
/// percent-decoded path.
#[derive(Debug, PartialEq, Eq)]
pub struct Url {
    pub scheme: String,
    pub path: String,
}

impl Clone for Url {
    fn clone(&self) -> (r: Self)
        ensures
            r == *self,
    {
        Url { scheme: self.scheme.clone(), path: self.path.clone() }
    }
}

impl Url {
    /// A URL from its scheme and its (already decoded) path.
    pub fn new(scheme: String, path: String) -> (r: Url)
        ensures
            r.scheme == scheme,
            r.path == path,
    {
        Url { scheme, path }
    }

    /// Parses the URL written `s`: nothing when `s` is no URL or its path
    /// does not decode to UTF-8.
    pub fn parse(s: &str) -> (r: Option<Url>)
        ensures
            match r {
                Some(u) => url_parts(s@) == Some((u.scheme@, u.path@)),
                None => url_parts(s@) is None,
            },
    {
        match split_url(s) {
            Some((scheme, raw)) => match percent_decode(raw.as_str()) {
                Some(path) => Some(Url { scheme, path }),
                None => None,
            },
            None => None,
        }
    }
}

} // verus!
