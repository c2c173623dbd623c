//! Tag writing and content filing: the write/read round trip and the
//! tag-derived destination.

use tdl::fs::{Dir, FsError};
use tdl::tidal::RelevantMetadata;

fn sample_metadata(track_number: Option<u16>) -> RelevantMetadata {
    RelevantMetadata {
        title: "Song".to_string(),
        artists: vec!["A".to_string(), "B".to_string()],
        album: "Record".to_string(),
        track_number,
    }
}

#[test]
fn written_tags_read_back_unchanged() {
    let md = sample_metadata(Some(3));
    let mut tag = metaflac::Tag::new();
    md.tag(&mut tag);
    let title: Vec<&str> = tag.get_vorbis("title").expect("title").collect();
    assert_eq!(title, vec!["Song"]);
    let artist: Vec<&str> = tag.get_vorbis("artist").expect("artist").collect();
    assert_eq!(artist, vec!["A; B"]);
    let album: Vec<&str> = tag.get_vorbis("album").expect("album").collect();
    assert_eq!(album, vec!["Record"]);
    let track: Vec<&str> = tag.get_vorbis("track").expect("track").collect();
    assert_eq!(track, vec!["3"]);
}

#[test]
fn unassigned_track_number_writes_no_track_tag() {
    let md = sample_metadata(None);
    let mut tag = metaflac::Tag::new();
    md.tag(&mut tag);
    assert!(tag.get_vorbis("track").is_none());
    assert!(tag.get_vorbis("title").is_some());
}

#[test]
fn tagging_replaces_previous_values() {
    let mut tag = metaflac::Tag::new();
    tag.set_vorbis("title", vec!["old title"]);
    sample_metadata(None).tag(&mut tag);
    let title: Vec<&str> = tag.get_vorbis("title").expect("title").collect();
    assert_eq!(title, vec!["Song"]);
}

#[test]
fn filing_computes_tag_derived_destination() {
    let dir = Dir::new("/tmp/tdl-store".to_string());
    let mut tag = metaflac::Tag::new();
    sample_metadata(Some(3)).tag(&mut tag);
    let plan = dir.add_music("/tmp/x.flac", &tag).unwrap_or_else(|_| panic!("plan failed"));
    assert_eq!(plan.dst_dir, "/tmp/tdl-store/A; B/Record");
    assert_eq!(plan.dst, "/tmp/tdl-store/A; B/Record/Song.flac");
}

#[test]
fn filing_is_deterministic_for_equal_triples() {
    let dir = Dir::new("root".to_string());
    let mut tag1 = metaflac::Tag::new();
    let mut tag2 = metaflac::Tag::new();
    sample_metadata(Some(1)).tag(&mut tag1);
    sample_metadata(Some(9)).tag(&mut tag2);
    let p1 = dir.add_music("/tmp/a.flac", &tag1).unwrap_or_else(|_| panic!("plan 1"));
    let p2 = dir.add_music("/tmp/b.flac", &tag2).unwrap_or_else(|_| panic!("plan 2"));
    // Two tracks with identical (artist, album, title) collide at one path.
    assert_eq!(p1.dst, p2.dst);
}

#[test]
fn filing_disarms_path_separators_in_tags() {
    let dir = Dir::new("root".to_string());
    let mut tag = metaflac::Tag::new();
    let md = RelevantMetadata {
        title: "a/b".to_string(),
        artists: vec!["AC/DC".to_string()],
        album: "../escape".to_string(),
        track_number: None,
    };
    md.tag(&mut tag);
    let plan = dir.add_music("/tmp/x.flac", &tag).unwrap_or_else(|_| panic!("plan failed"));
    assert_eq!(plan.dst, "root/AC_DC/.._escape/a_b.flac");
}

#[test]
fn filing_names_the_missing_field() {
    let dir = Dir::new("root".to_string());

    let empty = metaflac::Tag::new();
    match dir.add_music("/tmp/x.flac", &empty) {
        Err(FsError::MissingAlbum(p)) => assert_eq!(p, "/tmp/x.flac"),
        _ => panic!("expected MissingAlbum"),
    }

    let mut only_album = metaflac::Tag::new();
    only_album.set_vorbis("album", vec!["Record"]);
    match dir.add_music("/tmp/x.flac", &only_album) {
        Err(FsError::MissingArtist(p)) => assert_eq!(p, "/tmp/x.flac"),
        _ => panic!("expected MissingArtist"),
    }

    let mut no_title = metaflac::Tag::new();
    no_title.set_vorbis("album", vec!["Record"]);
    no_title.set_vorbis("artist", vec!["A"]);
    match dir.add_music("/tmp/x.flac", &no_title) {
        Err(FsError::MissingTitle(p)) => assert_eq!(p, "/tmp/x.flac"),
        _ => panic!("expected MissingTitle"),
    }
}
