//! Builds a podcast syndication feed from a snapshot of a directory of audio files.
//!
//! Reading the directory and serving the feed belong to the caller; this crate
//! turns what was read into entries (falling back on the filename where a tag
//! cannot be read) and entries into a feed (leaving out items whose enclosure
//! URL cannot be resolved).

mod error;
mod feed;
mod laws;
mod mode;
mod resolve;
mod scan;
mod strings;
mod tag;
mod timestamp;

pub use error::FeedError;
pub use feed::{
    audio_mpeg, description_of, item_of, item_of_some_entry, kept_entries, mkfeed, mkitem, mkitunes_channel_ext,
    pub_date_of, resolves, resolves_against, Config, FeedDocument, FeedItem, PublisherExt,
};
pub use laws::{lemma_item_count, lemma_kept_in_entries, resolved_count};
pub use mode::{mode_from_opt, RunMode};
pub use resolve::{
    enclosure_url, is_parsed_url, joined_url, parsed_url, podcasts_segment, resolve_enclosure,
    BaseUrl,
};
pub use scan::{
    degraded_entry, entry_file_data, entry_from_tag, entry_has_tag_fields, has_tag,
    joined_comments, read_podcast_dir, scan_file, scanned_from, title_or_filename, PodcastEntry,
    ScannedFile,
};
pub use strings::{concat_all, opt_view, views_of};
pub use tag::{
    extract_tag, tag_artist_of, tag_comments_of, tag_decodes, tag_title_of, TagInfo,
};
pub use timestamp::{format_timestamp, rfc2822_of, MAX_RFC2822_SECS, MIN_RFC2822_SECS};
