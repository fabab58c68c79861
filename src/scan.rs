use vstd::prelude::*;

use crate::error::FeedError;
use crate::strings::{concat_all, opt_view, views_of};
use crate::tag::{
    extract_tag, tag_artist_of, tag_comments_of, tag_decodes, tag_title_of, TagInfo,
};

verus! {

/// What the caller read of one listed directory entry.
#[derive(Debug)]
pub struct ScannedFile {
    /// The entry's base name.
    pub filename: String,
    /// The file's bytes; `None` where they could not be read.
    pub contents: Option<Vec<u8>>,
    /// Last modification, in seconds since the Unix epoch; `None` where unreadable.
    pub modified: Option<i64>,
    /// Length in bytes; `None` where unreadable.
    pub len: Option<u64>,
}

/// One audio file's presentation data.
#[derive(Debug)]
pub struct PodcastEntry {
    pub filename: String,
    pub title: String,
    pub artist: Option<String>,
    pub comment: Option<String>,
    /// Last modification, in seconds since the Unix epoch.
    pub modified: i64,
    pub len: u64,
}

/// The title of an entry: the tag's, or else the filename.
pub open spec fn title_or_filename(title: Option<Seq<char>>, filename: Seq<char>) -> Seq<char> {
    match title {
        Some(t) => t,
        None => filename,
    }
}

/// The comment of an entry: the tag's comments run together, absent where
/// there are none.
pub open spec fn joined_comments(comments: Seq<Seq<char>>) -> Option<Seq<char>> {
    if comments.len() == 0 {
        None
    } else {
        Some(comments.flatten())
    }
}

/// Whether `e` holds exactly what a tag with these fields says of the file.
pub open spec fn entry_has_tag_fields(
    e: PodcastEntry,
    artist: Option<Seq<char>>,
    title: Option<Seq<char>>,
    comments: Seq<Seq<char>>,
    filename: Seq<char>,
) -> bool {
    &&& opt_view(e.artist) == artist
    &&& e.title@ == title_or_filename(title, filename)
    &&& opt_view(e.comment) == joined_comments(comments)
}

/// Whether `e` holds the filename-only metadata of a file without a tag.
pub open spec fn degraded_entry(e: PodcastEntry, filename: Seq<char>) -> bool {
    &&& e.artist is None
    &&& e.title@ == filename
    &&& e.comment is None
}

/// Whether `e`'s name, time and length are those read, with their fallbacks:
/// `now` for an unreadable time, zero for an unreadable length.
pub open spec fn entry_file_data(
    e: PodcastEntry,
    filename: Seq<char>,
    modified: Option<i64>,
    now: i64,
    len: Option<u64>,
) -> bool {
    &&& e.filename@ == filename
    &&& e.modified == match modified {
        Some(t) => t,
        None => now,
    }
    &&& e.len == match len {
        Some(n) => n,
        None => 0,
    }
}

/// Whether the caller's bytes of `f` hold a well-formed tag.
pub open spec fn has_tag(f: ScannedFile) -> bool {
    f.contents is Some && tag_decodes(f.contents->0@)
}

/// Whether `e` is the entry of the scanned file `f`.
pub open spec fn scanned_from(e: PodcastEntry, f: ScannedFile, now: i64) -> bool {
    &&& entry_file_data(e, f.filename@, f.modified, now, f.len)
    &&& if has_tag(f) {
        let b = f.contents->0@;
        entry_has_tag_fields(e, tag_artist_of(b), tag_title_of(b), tag_comments_of(b), f.filename@)
    } else {
        degraded_entry(e, f.filename@)
    }
}

/// Builds a file's entry from the outcome of reading its tag: the tag's
/// artist, title and comments where it was read, the filename alone where not.
pub fn entry_from_tag(
    filename: &str,
    tag: Result<TagInfo, FeedError>,
    modified: Option<i64>,
    now: i64,
    len: Option<u64>,
) -> (r: PodcastEntry)
    ensures
        entry_file_data(r, filename@, modified, now, len),
        match tag {
            Ok(info) => entry_has_tag_fields(
                r,
                opt_view(info.artist),
                opt_view(info.title),
                views_of(info.comments@),
                filename@,
            ),
            Err(_) => degraded_entry(r, filename@),
        },
{
    let modified = match modified {
        Some(t) => t,
        None => now,
    };
    let len = match len {
        Some(n) => n,
        None => 0,
    };
    match tag {
        Ok(info) => {
            let title = match info.title {
                Some(t) => t,
                None => filename.to_owned(),
            };
            let comment = if info.comments.len() == 0 {
                None
            } else {
                Some(concat_all(&info.comments))
            };
            PodcastEntry {
                filename: filename.to_owned(),
                title,
                artist: info.artist,
                comment,
                modified,
                len,
            }
        },
        Err(_) => PodcastEntry {
            filename: filename.to_owned(),
            title: filename.to_owned(),
            artist: None,
            comment: None,
            modified,
            len,
        },
    }
}

/// Builds the entry of one scanned file: artist, title and comments from its
/// tag; a file whose tag cannot be read still yields an entry, with
/// filename-only metadata.
pub fn scan_file(f: &ScannedFile, now: i64) -> (r: PodcastEntry)
    ensures
        scanned_from(r, *f, now),
{
    let contents: Option<&[u8]> = match &f.contents {
        Some(b) => Some(b.as_slice()),
        None => None,
    };
    let tag = extract_tag(f.filename.as_str(), contents);
    entry_from_tag(f.filename.as_str(), tag, f.modified, now, f.len)
}

/// Builds the entries of a directory snapshot: exactly one for each scanned
/// file, in the order given.
pub fn read_podcast_dir(files: &Vec<ScannedFile>, now: i64) -> (r: Vec<PodcastEntry>)
    ensures
        r@.len() == files@.len(),
        forall|i: int| 0 <= i < files@.len() ==> scanned_from(#[trigger] r@[i], files@[i], now),
{
    let mut out: Vec<PodcastEntry> = Vec::new();
    let mut i: usize = 0;
    while i < files.len()
        invariant
            i <= files@.len(),
            out@.len() == i,
            forall|j: int| 0 <= j < i ==> scanned_from(#[trigger] out@[j], files@[j], now),
        decreases files@.len() - i,
    {
        out.push(scan_file(&files[i], now));
        i = i + 1;
    }
    out
}

} // verus!
