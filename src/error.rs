use vstd::prelude::*;

verus! {

#[verifier::external_type_specification]
#[verifier::external_body]
pub struct ExParseError(url::ParseError);

/// The ways in which building the snapshot or the feed can fail.
#[derive(Debug)]
pub enum FeedError {
    /// The directory or another required filesystem object could not be read.
    Io(String),
    /// No tag could be read from the named file.
    TagRead(String),
    /// A base URL did not parse, or joining a segment onto it failed.
    UrlParse(url::ParseError),
    /// A channel or item could not be built: a required field is missing or
    /// invalid. The builders of this crate always have their fields, so
    /// only a caller's own construction steps (loading a configuration, say)
    /// report it.
    FeedBuild(String),
}

} // verus!
