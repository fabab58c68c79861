use vstd::prelude::*;

use crate::error::FeedError;

verus! {

/// The serialization of what `url::Url::parse` makes of `s`, or `None` where
/// it refuses `s` (it accepts absolute URLs only).
pub uninterp spec fn parsed_url(s: Seq<char>) -> Option<Seq<char>>;

/// The serialization of the URL that results from parsing `base` and joining
/// `rel` onto it with `url::Url::join`, or `None` where either step fails.
pub uninterp spec fn joined_url(base: Seq<char>, rel: Seq<char>) -> Option<Seq<char>>;

/// Relies on `url::Url::parse`, whose outcome depends on `s` alone; a parsed
/// URL is handed back as its serialization.
#[verifier::external_body]
fn parse_url(s: &str) -> (r: Result<String, url::ParseError>)
    ensures
        match r {
            Ok(u) => parsed_url(s@) == Some(u@),
            Err(_) => parsed_url(s@) is None,
        },
{
    url::Url::parse(s).map(String::from)
}

/// Relies on `url::Url::join` (applied to `base` as `url::Url::parse` reads
/// it), whose outcome depends on its two inputs alone.
#[verifier::external_body]
fn join_url(base: &str, rel: &str) -> (r: Result<String, url::ParseError>)
    ensures
        match r {
            Ok(u) => joined_url(base@, rel@) == Some(u@),
            Err(_) => joined_url(base@, rel@) is None,
        },
{
    url::Url::parse(base).and_then(|u| u.join(rel)).map(String::from)
}

/// The path segment under which the audio files are served.
pub open spec fn podcasts_segment() -> Seq<char> {
    "/podcasts/"@
}

/// The enclosure URL of `filename`: `base` joined with the podcasts segment,
/// then with `filename`; `None` where either join fails.
pub open spec fn enclosure_url(base: Seq<char>, filename: Seq<char>) -> Option<Seq<char>> {
    match joined_url(base, podcasts_segment()) {
        Some(dir) => joined_url(dir, filename),
        None => None,
    }
}

/// Whether `u` is the serialization of some parsed URL.
pub open spec fn is_parsed_url(u: Seq<char>) -> bool {
    exists|s: Seq<char>| parsed_url(s) == Some(u)
}

/// An absolute URL that the feed's enclosure URLs are resolved against.
pub struct BaseUrl {
    text: String,
}

impl View for BaseUrl {
    type V = Seq<char>;

    closed spec fn view(&self) -> Seq<char> {
        self.text@
    }
}

impl BaseUrl {
    /// Holds of every value: the text is a parsed URL's serialization, and the
    /// podcasts segment joins onto it.
    pub closed spec fn wf(&self) -> bool {
        &&& is_parsed_url(self.text@)
        &&& joined_url(self.text@, podcasts_segment()) is Some
    }

    /// Parses a base URL. One that does not parse, or onto which the
    /// podcasts segment cannot be joined (text without its scheme, such as
    /// `localhost:8000`, parses as a URL that nothing joins onto), is refused.
    pub fn parse(s: &str) -> (r: Result<BaseUrl, FeedError>)
        ensures
            r is Ok <==> (parsed_url(s@) matches Some(u) && joined_url(u, podcasts_segment()) is Some),
            r matches Ok(b) ==> parsed_url(s@) == Some(b@) && b.wf(),
            r matches Err(e) ==> e is UrlParse,
    {
        let text = match parse_url(s) {
            Ok(text) => text,
            Err(e) => {
                return Err(FeedError::UrlParse(e));
            },
        };
        match join_url(text.as_str(), "/podcasts/") {
            Ok(_) => {
                let b = BaseUrl { text };
                assert(parsed_url(s@) == Some(b.text@));
                Ok(b)
            },
            Err(e) => Err(FeedError::UrlParse(e)),
        }
    }

    /// The URL's serialization.
    pub fn as_str(&self) -> (r: &str)
        ensures
            r@ == self@,
    {
        self.text.as_str()
    }
}

/// Resolves the enclosure URL of `filename`: `base` joined with
/// `/podcasts/`, then with `filename`.
pub fn resolve_enclosure(base: &BaseUrl, filename: &str) -> (r: Result<String, FeedError>)
    ensures
        match r {
            Ok(u) => enclosure_url(base@, filename@) == Some(u@),
            Err(e) => enclosure_url(base@, filename@) is None && e is UrlParse,
        },
{
    let dir = match join_url(base.as_str(), "/podcasts/") {
        Ok(d) => d,
        Err(e) => {
            return Err(FeedError::UrlParse(e));
        },
    };
    match join_url(dir.as_str(), filename) {
        Ok(u) => Ok(u),
        Err(e) => Err(FeedError::UrlParse(e)),
    }
}

} // verus!
