use id3::TagLike;
use podserve::{
    concat_all, entry_from_tag, extract_tag, format_timestamp, mkfeed, mkitem,
    mkitunes_channel_ext, mode_from_opt, read_podcast_dir, resolve_enclosure, scan_file, BaseUrl,
    Config, FeedError, PodcastEntry, RunMode, ScannedFile, TagInfo,
};

fn tag_bytes(artist: Option<&str>, title: Option<&str>, comments: &[(&str, &str)]) -> Vec<u8> {
    let mut tag = id3::Tag::new();
    if let Some(a) = artist {
        tag.set_artist(a);
    }
    if let Some(t) = title {
        tag.set_title(t);
    }
    for (description, text) in comments {
        tag.add_frame(id3::frame::Comment {
            lang: "eng".to_string(),
            description: description.to_string(),
            text: text.to_string(),
        });
    }
    let mut buf = Vec::new();
    tag.write_to(&mut buf, id3::Version::Id3v24).unwrap();
    buf.extend_from_slice(&[0xff, 0xfb, 0x90, 0x00]);
    buf
}

fn file(name: &str, contents: Option<Vec<u8>>) -> ScannedFile {
    ScannedFile {
        filename: name.to_string(),
        contents,
        modified: Some(1_609_459_200),
        len: Some(1234),
    }
}

fn host() -> BaseUrl {
    BaseUrl::parse("http://host/").unwrap()
}

#[test]
fn rfc2822_of_fixed_instant() {
    assert_eq!(
        format_timestamp(1_609_459_200),
        Some("Fri, 01 Jan 2021 00:00:00 +0000".to_string())
    );
    assert_eq!(format_timestamp(0), Some("Thu, 01 Jan 1970 00:00:00 +0000".to_string()));
}

#[test]
fn rfc2822_range_edges() {
    assert_eq!(
        format_timestamp(253_402_300_799),
        Some("Fri, 31 Dec 9999 23:59:59 +0000".to_string())
    );
    assert_eq!(
        format_timestamp(253_402_300_800),
        Some("Sat, 01 Jan 10000 00:00:00 +0000".to_string())
    );
    assert!(format_timestamp(8_210_298_412_799).is_some());
    assert_eq!(format_timestamp(8_210_298_412_800), None);
    assert_eq!(format_timestamp(-62_167_219_201), None);
    assert!(format_timestamp(-62_167_219_200).is_some());
    assert_eq!(format_timestamp(i64::MAX), None);
}

#[test]
fn base_url_without_scheme_is_refused() {
    assert!(matches!(BaseUrl::parse("host/podcasts"), Err(FeedError::UrlParse(_))));
    assert!(matches!(BaseUrl::parse(""), Err(FeedError::UrlParse(_))));
    assert!(matches!(BaseUrl::parse("localhost:8000"), Err(FeedError::UrlParse(_))));
    assert!(matches!(BaseUrl::parse("mailto:someone@host"), Err(FeedError::UrlParse(_))));
}

#[test]
fn base_url_keeps_its_serialization() {
    assert_eq!(host().as_str(), "http://host/");
    assert_eq!(BaseUrl::parse("http://host").unwrap().as_str(), "http://host/");
}

#[test]
fn enclosure_joins_podcasts_segment() {
    assert_eq!(
        resolve_enclosure(&host(), "episode1.mp3").unwrap(),
        "http://host/podcasts/episode1.mp3"
    );
    let nested = BaseUrl::parse("https://example.org/feed/index").unwrap();
    assert_eq!(
        resolve_enclosure(&nested, "a b.mp3").unwrap(),
        "https://example.org/podcasts/a%20b.mp3"
    );
}

#[test]
fn enclosure_of_unjoinable_filename_fails() {
    assert!(matches!(resolve_enclosure(&host(), "https:"), Err(FeedError::UrlParse(_))));
}

#[test]
fn tag_read_gives_artist_and_title() {
    let bytes = tag_bytes(Some("Foo"), Some("Bar"), &[]);
    let info = extract_tag("episode1.mp3", Some(&bytes)).unwrap();
    assert_eq!(info.artist.as_deref(), Some("Foo"));
    assert_eq!(info.title.as_deref(), Some("Bar"));
    assert!(info.comments.is_empty());
}

#[test]
fn tag_read_failure_names_the_file() {
    match extract_tag("corrupt.mp3", Some(b"not an id3 tag at all")) {
        Err(FeedError::TagRead(p)) => assert_eq!(p, "corrupt.mp3"),
        other => panic!("unexpected {:?}", other),
    }
    match extract_tag("gone.mp3", None) {
        Err(FeedError::TagRead(p)) => assert_eq!(p, "gone.mp3"),
        other => panic!("unexpected {:?}", other),
    }
}

#[test]
fn entry_takes_tag_values() {
    let bytes = tag_bytes(Some("Foo"), Some("Bar"), &[("a", "first "), ("b", "second")]);
    let e = scan_file(&file("episode1.mp3", Some(bytes)), 5);
    assert_eq!(e.filename, "episode1.mp3");
    assert_eq!(e.artist.as_deref(), Some("Foo"));
    assert_eq!(e.title, "Bar");
    assert_eq!(e.comment.as_deref(), Some("first second"));
    assert_eq!(e.modified, 1_609_459_200);
    assert_eq!(e.len, 1234);
}

#[test]
fn entry_without_tag_title_uses_filename() {
    let bytes = tag_bytes(Some("Foo"), None, &[]);
    let e = scan_file(&file("untitled.mp3", Some(bytes)), 5);
    assert_eq!(e.title, "untitled.mp3");
    assert_eq!(e.artist.as_deref(), Some("Foo"));
    assert_eq!(e.comment, None);
}

#[test]
fn corrupt_file_degrades_to_filename() {
    let e = scan_file(&file("corrupt.mp3", Some(b"garbage".to_vec())), 5);
    assert_eq!(e.filename, "corrupt.mp3");
    assert_eq!(e.title, "corrupt.mp3");
    assert_eq!(e.artist, None);
    assert_eq!(e.comment, None);
}

#[test]
fn unreadable_metadata_falls_back() {
    let f = ScannedFile {
        filename: "x.mp3".to_string(),
        contents: None,
        modified: None,
        len: None,
    };
    let e = scan_file(&f, 777);
    assert_eq!(e.modified, 777);
    assert_eq!(e.len, 0);
    assert_eq!(e.title, "x.mp3");
}

#[test]
fn entry_from_tag_uses_given_info() {
    let info = TagInfo {
        artist: None,
        title: Some("T".to_string()),
        comments: vec!["x".to_string(), "y".to_string(), "z".to_string()],
    };
    let e = entry_from_tag("f.mp3", Ok(info), Some(3), 9, Some(4));
    assert_eq!(e.title, "T");
    assert_eq!(e.artist, None);
    assert_eq!(e.comment.as_deref(), Some("xyz"));
    assert_eq!(e.modified, 3);
    assert_eq!(e.len, 4);
    let e = entry_from_tag("f.mp3", Err(FeedError::TagRead("f.mp3".to_string())), None, 9, None);
    assert_eq!(e.title, "f.mp3");
    assert_eq!(e.modified, 9);
    assert_eq!(e.len, 0);
}

#[test]
fn concat_runs_parts_together() {
    assert_eq!(concat_all(&vec![]), "");
    assert_eq!(concat_all(&vec!["ab".to_string(), "".to_string(), "c".to_string()]), "abc");
}

#[test]
fn scan_keeps_every_file_in_order() {
    let files = vec![
        file("b.mp3", Some(tag_bytes(None, Some("B"), &[]))),
        file("a.mp3", None),
        file("c.mp3", Some(vec![])),
    ];
    let entries = read_podcast_dir(&files, 0);
    let names: Vec<&str> = entries.iter().map(|e| e.filename.as_str()).collect();
    assert_eq!(names, vec!["b.mp3", "a.mp3", "c.mp3"]);
    assert_eq!(entries[0].title, "B");
    assert_eq!(entries[1].title, "a.mp3");
}

#[test]
fn two_files_one_corrupt() {
    let files = vec![
        file("episode1.mp3", Some(tag_bytes(Some("Foo"), Some("Bar"), &[]))),
        file("corrupt.mp3", Some(b"\x00\x01 no tag".to_vec())),
    ];
    let entries = read_podcast_dir(&files, 0);
    let feed = mkfeed(&Config::default(), &host(), &entries);
    assert_eq!(feed.items.len(), 2);
    assert_eq!(feed.items[0].guid, "episode1.mp3");
    assert_eq!(feed.items[0].title, "Bar");
    assert_eq!(feed.items[0].enclosure_url, "http://host/podcasts/episode1.mp3");
    assert_eq!(feed.items[1].guid, "corrupt.mp3");
    assert_eq!(feed.items[1].title, "corrupt.mp3");
    assert_eq!(feed.items[1].enclosure_url, "http://host/podcasts/corrupt.mp3");
    assert_eq!(feed.items[0].mime_type, "audio/mpeg");
    assert_eq!(feed.items[0].length, 1234);
    assert_eq!(
        feed.items[0].pub_date.as_deref(),
        Some("Fri, 01 Jan 2021 00:00:00 +0000")
    );
}

#[test]
fn empty_directory_gives_empty_channel() {
    let entries = read_podcast_dir(&vec![], 0);
    assert!(entries.is_empty());
    let config = Config {
        title: "T".to_string(),
        description: "D".to_string(),
        author: "A".to_string(),
    };
    let feed = mkfeed(&config, &host(), &entries);
    assert!(feed.items.is_empty());
    assert_eq!(feed.title, "T");
    assert_eq!(feed.description, "D");
    assert_eq!(feed.publisher.unwrap().author, "A");
}

#[test]
fn unjoinable_filename_is_left_out() {
    let files = vec![
        file("one.mp3", None),
        file("https:", None),
        file("three.mp3", None),
    ];
    let entries = read_podcast_dir(&files, 0);
    let feed = mkfeed(&Config::default(), &host(), &entries);
    let guids: Vec<&str> = feed.items.iter().map(|i| i.guid.as_str()).collect();
    assert_eq!(guids, vec!["one.mp3", "three.mp3"]);
    assert_eq!(feed.items[1].enclosure_url, "http://host/podcasts/three.mp3");
}

fn entry(name: &str, comment: Option<&str>, modified: i64) -> PodcastEntry {
    PodcastEntry {
        filename: name.to_string(),
        title: "Title".to_string(),
        artist: None,
        comment: comment.map(str::to_string),
        modified,
        len: 42,
    }
}

#[test]
fn item_fields() {
    let item = mkitem(&host(), &entry("e.mp3", Some("notes"), 0)).unwrap();
    assert_eq!(item.title, "Title");
    assert_eq!(item.description, "notes");
    assert_eq!(item.guid, "e.mp3");
    assert_eq!(item.enclosure_url, "http://host/podcasts/e.mp3");
    assert_eq!(item.length, 42);
    assert_eq!(item.pub_date.as_deref(), Some("Thu, 01 Jan 1970 00:00:00 +0000"));
    let item = mkitem(&host(), &entry("e.mp3", None, i64::MIN)).unwrap();
    assert_eq!(item.description, "");
    assert_eq!(item.pub_date, None);
}

#[test]
fn item_of_unjoinable_filename_fails() {
    assert!(matches!(mkitem(&host(), &entry("https:", None, 0)), Err(FeedError::UrlParse(_))));
}

#[test]
fn publisher_ext_takes_author() {
    assert_eq!(mkitunes_channel_ext(&Config::default()).author, "podserve");
}

#[test]
fn default_config() {
    let c = Config::default();
    assert_eq!(c.title, "Podcasts");
    assert_eq!(c.description, "Podcasts served by podserve");
    assert_eq!(c.author, "podserve");
}

#[test]
fn mode_follows_write_config() {
    assert!(matches!(mode_from_opt(&None), RunMode::Serve));
    match mode_from_opt(&Some("cfg.toml".to_string())) {
        RunMode::WriteConfig(p) => assert_eq!(p, "cfg.toml"),
        other => panic!("unexpected {:?}", other),
    }
}
