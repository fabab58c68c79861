use vstd::prelude::*;

use id3::TagLike;

use crate::error::FeedError;
use crate::strings::{opt_view, views_of};

verus! {

#[verifier::external_type_specification]
#[verifier::external_body]
pub struct ExId3Error(id3::Error);

/// Whether `id3::Tag::read_from2` finds a well-formed tag in `b`.
pub uninterp spec fn tag_decodes(b: Seq<u8>) -> bool;

/// The artist (`id3::TagLike::artist`) of the tag read from `b`.
pub uninterp spec fn tag_artist_of(b: Seq<u8>) -> Option<Seq<char>>;

/// The title (`id3::TagLike::title`) of the tag read from `b`.
pub uninterp spec fn tag_title_of(b: Seq<u8>) -> Option<Seq<char>>;

/// The comment texts (`id3::Tag::comments`), in order, of the tag read from `b`.
pub uninterp spec fn tag_comments_of(b: Seq<u8>) -> Seq<Seq<char>>;

/// Relies on `id3::Tag::read_from2`, run over the bytes in memory, whose
/// outcome depends on the bytes alone; and on `id3::TagLike::artist`,
/// `id3::TagLike::title` and `id3::Tag::comments`, which read the decoded
/// tag's TPE1 and TIT2 frames and the texts of its comment frames.
#[verifier::external_body]
fn decode_tag(b: &[u8]) -> (r: Result<TagInfo, id3::Error>)
    ensures
        r is Ok <==> tag_decodes(b@),
        r matches Ok(info) ==> {
            &&& opt_view(info.artist) == tag_artist_of(b@)
            &&& opt_view(info.title) == tag_title_of(b@)
            &&& views_of(info.comments@) == tag_comments_of(b@)
        },
{
    id3::Tag::read_from2(std::io::Cursor::new(b)).map(|t| TagInfo {
        artist: t.artist().map(String::from),
        title: t.title().map(String::from),
        comments: t.comments().map(|c| c.text.clone()).collect(),
    })
}

/// What a file's embedded tag says of it.
#[derive(Debug)]
pub struct TagInfo {
    pub artist: Option<String>,
    pub title: Option<String>,
    pub comments: Vec<String>,
}

/// Reads the embedded tag of the file `filename`, whose bytes are `contents`
/// (`None` where the file could not be read). Fails with `TagRead`, naming the
/// file, where the file was unreadable or holds no well-formed tag.
pub fn extract_tag(filename: &str, contents: Option<&[u8]>) -> (r: Result<TagInfo, FeedError>)
    ensures
        r is Ok <==> (contents is Some && tag_decodes(contents->0@)),
        r matches Ok(info) ==> {
            &&& opt_view(info.artist) == tag_artist_of(contents->0@)
            &&& opt_view(info.title) == tag_title_of(contents->0@)
            &&& views_of(info.comments@) == tag_comments_of(contents->0@)
        },
        r matches Err(e) ==> e matches FeedError::TagRead(p) && p@ == filename@,
{
    let decoded = match contents {
        Some(b) => decode_tag(b),
        None => {
            return Err(FeedError::TagRead(filename.to_owned()));
        },
    };
    match decoded {
        Ok(info) => Ok(info),
        Err(_) => Err(FeedError::TagRead(filename.to_owned())),
    }
}

} // verus!
