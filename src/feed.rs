use vstd::prelude::*;

use crate::error::FeedError;
use crate::laws::lemma_kept_in_entries;
use crate::resolve::{enclosure_url, resolve_enclosure, BaseUrl};
use crate::scan::PodcastEntry;
use crate::strings::opt_view;
use crate::timestamp::{format_timestamp, rfc2822_of, MAX_RFC2822_SECS, MIN_RFC2822_SECS};

verus! {

/// Feed-level presentation data.
#[derive(Debug)]
pub struct Config {
    pub title: String,
    pub description: String,
    pub author: String,
}

impl Default for Config {
    /// The configuration used where none is given.
    fn default() -> (r: Config)
        ensures
            r.title@ == "Podcasts"@,
            r.description@ == "Podcasts served by podserve"@,
            r.author@ == "podserve"@,
    {
        Config {
            title: "Podcasts".to_owned(),
            description: "Podcasts served by podserve".to_owned(),
            author: "podserve".to_owned(),
        }
    }
}

/// The publisher-identity extension of a channel.
#[derive(Debug)]
pub struct PublisherExt {
    pub author: String,
}

/// One item of the feed: an episode and its enclosure.
#[derive(Debug)]
pub struct FeedItem {
    pub title: String,
    pub description: String,
    pub guid: String,
    pub enclosure_url: String,
    pub mime_type: String,
    pub length: u64,
    /// The RFC 2822 publish date; absent only for a time before year 0 or past
    /// year 262143.
    pub pub_date: Option<String>,
}

/// The feed: channel metadata and its items in order.
#[derive(Debug)]
pub struct FeedDocument {
    pub title: String,
    pub description: String,
    pub publisher: Option<PublisherExt>,
    pub items: Vec<FeedItem>,
}

/// The mime type of every enclosure.
pub open spec fn audio_mpeg() -> Seq<char> {
    "audio/mpeg"@
}

/// The publish date of an entry modified at `secs`.
pub open spec fn pub_date_of(secs: i64) -> Option<Seq<char>> {
    if MIN_RFC2822_SECS <= secs <= MAX_RFC2822_SECS {
        Some(rfc2822_of(secs as int))
    } else {
        None
    }
}

/// The description of an entry: its comment, or empty.
pub open spec fn description_of(comment: Option<String>) -> Seq<char> {
    match comment {
        Some(c) => c@,
        None => Seq::empty(),
    }
}

/// Whether the enclosure URL of `e` resolves against `base`.
pub open spec fn resolves(base: Seq<char>, e: PodcastEntry) -> bool {
    enclosure_url(base, e.filename@) is Some
}

/// `resolves` against `base`, as a predicate on entries.
pub open spec fn resolves_against(base: Seq<char>) -> spec_fn(PodcastEntry) -> bool {
    |e: PodcastEntry| resolves(base, e)
}

/// The entries that get an item, in order: those whose enclosure URL resolves.
pub open spec fn kept_entries(base: Seq<char>, entries: Seq<PodcastEntry>) -> Seq<PodcastEntry> {
    entries.filter(resolves_against(base))
}

/// Whether `item` is the feed item of `e`.
pub open spec fn item_of(item: FeedItem, base: Seq<char>, e: PodcastEntry) -> bool {
    &&& item.title@ == e.title@
    &&& item.description@ == description_of(e.comment)
    &&& item.guid@ == e.filename@
    &&& enclosure_url(base, e.filename@) == Some(item.enclosure_url@)
    &&& item.mime_type@ == audio_mpeg()
    &&& item.length == e.len
    &&& opt_view(item.pub_date) == pub_date_of(e.modified)
}

/// Whether `item` is the feed item of one of `entries`.
pub open spec fn item_of_some_entry(item: FeedItem, base: Seq<char>, entries: Seq<PodcastEntry>) -> bool {
    exists|j: int| 0 <= j < entries.len() && item_of(item, base, #[trigger] entries[j])
}

/// Builds the channel's publisher extension from the configured author.
pub fn mkitunes_channel_ext(config: &Config) -> (r: PublisherExt)
    ensures
        r.author@ == config.author@,
{
    PublisherExt { author: config.author.clone() }
}

/// Builds the feed item of one entry; fails where its enclosure URL does not
/// resolve.
pub fn mkitem(base: &BaseUrl, e: &PodcastEntry) -> (r: Result<FeedItem, FeedError>)
    ensures
        r is Ok <==> resolves(base@, *e),
        match r {
            Ok(item) => item_of(item, base@, *e),
            Err(err) => err is UrlParse,
        },
{
    let url = match resolve_enclosure(base, e.filename.as_str()) {
        Ok(u) => u,
        Err(err) => {
            return Err(err);
        },
    };
    let description = match &e.comment {
        Some(c) => c.clone(),
        None => String::new(),
    };
    Ok(FeedItem {
        title: e.title.clone(),
        description,
        guid: e.filename.clone(),
        enclosure_url: url,
        mime_type: "audio/mpeg".to_owned(),
        length: e.len,
        pub_date: format_timestamp(e.modified),
    })
}

/// Builds the feed of `entries`: the channel fields from `config`, and one
/// item per entry whose enclosure URL resolves, in the entries' order; the
/// others are left out.
pub fn mkfeed(config: &Config, base: &BaseUrl, entries: &Vec<PodcastEntry>) -> (r: FeedDocument)
    ensures
        r.title@ == config.title@,
        r.description@ == config.description@,
        r.publisher matches Some(p) && p.author@ == config.author@,
        r.items@.len() == kept_entries(base@, entries@).len(),
        forall|i: int|
            0 <= i < r.items@.len() ==> item_of(
                #[trigger] r.items@[i],
                base@,
                kept_entries(base@, entries@)[i],
            ),
        forall|i: int|
            0 <= i < r.items@.len() ==> item_of_some_entry(#[trigger] r.items@[i], base@, entries@),
{
    let mut items: Vec<FeedItem> = Vec::new();
    let mut i: usize = 0;
    while i < entries.len()
        invariant
            i <= entries@.len(),
            items@.len() == kept_entries(base@, entries@.take(i as int)).len(),
            forall|j: int|
                0 <= j < items@.len() ==> item_of(
                    #[trigger] items@[j],
                    base@,
                    kept_entries(base@, entries@.take(i as int))[j],
                ),
        decreases entries@.len() - i,
    {
        proof {
            assert(entries@.take(i + 1) =~= entries@.take(i as int).push(entries@[i as int]));
            entries@.take(i as int).lemma_filter_push(entries@[i as int], resolves_against(base@));
        }
        match mkitem(base, &entries[i]) {
            Ok(item) => {
                items.push(item);
            },
            Err(_) => {},
        }
        i = i + 1;
    }
    assert(entries@.take(i as int) =~= entries@);
    let doc = FeedDocument {
        title: config.title.clone(),
        description: config.description.clone(),
        publisher: Some(mkitunes_channel_ext(config)),
        items,
    };
    proof {
        lemma_kept_in_entries(base@, entries@);
        let kept = kept_entries(base@, entries@);
        assert forall|k: int| 0 <= k < doc.items@.len() implies item_of_some_entry(
            #[trigger] doc.items@[k],
            base@,
            entries@,
        ) by {
            assert(item_of(doc.items@[k], base@, kept[k]));
            let j = choose|j: int| 0 <= j < entries@.len() && entries@[j] == kept[k];
            assert(item_of(doc.items@[k], base@, entries@[j]));
        }
    }
    doc
}

} // verus!
