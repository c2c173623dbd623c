//! The resolver walk, the per-track pipeline and the per-album run.

use tdl::runner::{AlbumRun, AlbumStage, Event, TrackMachine, TrackStage, TrackFailure};
use tdl::tidal::{
    mux_job, Access, AccessError, ClientCredentials, MissingField, RelevantMetadata, Resolver,
};
use tdl::fs::Dir;

fn session() -> Access {
    Access {
        api_creds: ClientCredentials {
            access_token: "api-token".to_string(),
            token_type: "Bearer".to_string(),
            expires_in: 3600,
        },
        streaming_creds: ClientCredentials {
            access_token: "stream-token".to_string(),
            token_type: "Bearer".to_string(),
            expires_in: 14400,
        },
    }
}

const TRACK_JSON: &str = "{\"data\": {\"attributes\": {\"title\": \"Song\"}, \"relationships\": {\"albums\": {\"data\": [{\"id\": \"ALB\"}]}, \"artists\": {\"data\": [{\"id\": \"ART1\"}]}}}}";
const ALBUM_JSON: &str = "{\"data\": {\"attributes\": {\"title\": \"Record\"}}}";
const ARTIST_JSON: &str = "{\"data\": {\"attributes\": {\"name\": \"A\"}}}";
const MANIFEST_JSON: &str = "{\"manifest\": \"aGVsbG8=\"}";

fn resolve_sample() -> RelevantMetadata {
    let r = Resolver::new("TRK".to_string());
    let r = r.feed(TRACK_JSON).unwrap_or_else(|_| panic!("track step"));
    let r = r.feed(ALBUM_JSON).unwrap_or_else(|_| panic!("album step"));
    let r = r.feed(ARTIST_JSON).unwrap_or_else(|_| panic!("artist step"));
    r.into_metadata().expect("resolution finished")
}

#[test]
fn resolution_walks_track_album_artists() {
    let access = session();
    let r = Resolver::new("TRK".to_string());
    let q = r.request(&access).expect("track request");
    assert_eq!(q.url, "https://openapi.tidal.com/v2/tracks/TRK");
    assert_eq!(
        q.query,
        vec![
            ("countryCode".to_string(), "US".to_string()),
            ("include".to_string(), "artists".to_string()),
            ("include".to_string(), "albums".to_string()),
        ]
    );

    let r = r.feed(TRACK_JSON).unwrap_or_else(|_| panic!("track step"));
    let q = r.request(&access).expect("album request");
    assert_eq!(q.url, "https://openapi.tidal.com/v2/albums/ALB");

    let r = r.feed(ALBUM_JSON).unwrap_or_else(|_| panic!("album step"));
    let q = r.request(&access).expect("artist request");
    assert_eq!(q.url, "https://openapi.tidal.com/v2/artists/ART1");

    let r = r.feed(ARTIST_JSON).unwrap_or_else(|_| panic!("artist step"));
    assert!(r.request(&access).is_none());
    let md = r.into_metadata().expect("metadata");
    assert_eq!(md.title, "Song");
    assert_eq!(md.album, "Record");
    assert_eq!(md.artists, vec!["A".to_string()]);
    assert_eq!(md.track_number, None);
    assert!(!md.title.is_empty() && !md.album.is_empty() && !md.artists.is_empty());
}

#[test]
fn resolution_names_the_missing_field() {
    let no_title = "{\"data\": {\"attributes\": {}, \"relationships\": {\"albums\": {\"data\": [{\"id\": \"ALB\"}]}, \"artists\": {\"data\": [{\"id\": \"ART1\"}]}}}}";
    match Resolver::new("TRK".to_string()).feed(no_title) {
        Err(AccessError::MissingField(MissingField::TrackTitle, _)) => {}
        _ => panic!("expected TrackTitle"),
    }

    let empty_title = "{\"data\": {\"attributes\": {\"title\": \"\"}, \"relationships\": {\"albums\": {\"data\": [{\"id\": \"ALB\"}]}, \"artists\": {\"data\": [{\"id\": \"ART1\"}]}}}}";
    match Resolver::new("TRK".to_string()).feed(empty_title) {
        Err(AccessError::MissingField(MissingField::TrackTitle, _)) => {}
        _ => panic!("expected TrackTitle for an empty title"),
    }

    let no_album_link = "{\"data\": {\"attributes\": {\"title\": \"Song\"}, \"relationships\": {\"albums\": {\"data\": []}, \"artists\": {\"data\": [{\"id\": \"ART1\"}]}}}}";
    match Resolver::new("TRK".to_string()).feed(no_album_link) {
        Err(AccessError::MissingField(MissingField::TrackAlbumId, _)) => {}
        _ => panic!("expected TrackAlbumId"),
    }

    let no_artists = "{\"data\": {\"attributes\": {\"title\": \"Song\"}, \"relationships\": {\"albums\": {\"data\": [{\"id\": \"ALB\"}]}, \"artists\": {\"data\": []}}}}";
    match Resolver::new("TRK".to_string()).feed(no_artists) {
        Err(AccessError::MissingField(MissingField::TrackArtistIds, _)) => {}
        _ => panic!("expected TrackArtistIds for an empty artist list"),
    }

    let bad_album = "{\"data\": {\"attributes\": {}}}";
    let r = Resolver::new("TRK".to_string()).feed(TRACK_JSON).unwrap_or_else(|_| panic!("track"));
    match r.feed(bad_album) {
        Err(AccessError::MissingField(MissingField::AlbumTitle, _)) => {}
        _ => panic!("expected AlbumTitle"),
    }

    let bad_artist = "{\"data\": {\"attributes\": {}}}";
    let r = Resolver::new("TRK".to_string()).feed(TRACK_JSON).unwrap_or_else(|_| panic!("track"));
    let r = r.feed(ALBUM_JSON).unwrap_or_else(|_| panic!("album"));
    match r.feed(bad_artist) {
        Err(AccessError::MissingField(MissingField::ArtistName, _)) => {}
        _ => panic!("expected ArtistName"),
    }
}

#[test]
fn end_to_end_resolution_tagging_and_filing() {
    let mut md = resolve_sample();
    assert_eq!(md.title, "Song");
    assert_eq!(md.album, "Record");
    assert_eq!(md.artists, vec!["A".to_string()]);
    assert_eq!(md.track_number, None);

    md.track_number = Some(3);
    let mut tag = metaflac::Tag::new();
    md.tag(&mut tag);

    let dir = Dir::new("storeRoot".to_string());
    let plan = dir.add_music("/tmp/TRK.flac", &tag).unwrap_or_else(|_| panic!("plan"));
    assert_eq!(plan.dst, "storeRoot/A/Record/Song.flac");
    let track: Vec<&str> = tag.get_vorbis("track").expect("track tag").collect();
    assert_eq!(track, vec!["3"]);
}

#[test]
fn mux_job_pipes_stdin_to_a_stream_copy() {
    let job = mux_job("TRK");
    assert_eq!(job.program, "ffmpeg");
    assert_eq!(job.output, "/tmp/TRK.flac");
    assert_eq!(
        job.args,
        vec![
            "-protocol_whitelist".to_string(),
            "fd,file,https,tcp,tls".to_string(),
            "-i".to_string(),
            "-".to_string(),
            "-c".to_string(),
            "copy".to_string(),
            "/tmp/TRK.flac".to_string(),
        ]
    );
}

fn feed_track_pipeline(machine: TrackMachine, dst: &str) -> TrackMachine {
    let m = machine.step(Event::Response(TRACK_JSON.to_string()));
    let m = m.step(Event::Response(ALBUM_JSON.to_string()));
    let m = m.step(Event::Response(ARTIST_JSON.to_string()));
    assert!(matches!(m.stage, TrackStage::FetchingManifest { .. }));
    let m = m.step(Event::Response(MANIFEST_JSON.to_string()));
    match &m.stage {
        TrackStage::Muxing { manifest, .. } => assert_eq!(manifest, &b"hello".to_vec()),
        _ => panic!("expected Muxing"),
    }
    let m = m.step(Event::Done);
    match &m.stage {
        TrackStage::Tagging { path, metadata } => {
            assert_eq!(path, &format!("/tmp/{}.flac", m.track_id));
            assert_eq!(metadata.track_number, m.track_number);
        }
        _ => panic!("expected Tagging"),
    }
    let m = m.step(Event::Done);
    assert!(matches!(m.stage, TrackStage::Filing { .. }));
    let m = m.step(Event::Stored(Ok(dst.to_string())));
    match &m.stage {
        TrackStage::Filed { dst: d, .. } => assert_eq!(d, dst),
        _ => panic!("expected Filed"),
    }
    m
}

#[test]
fn track_machine_runs_the_whole_pipeline() {
    let m = TrackMachine::new("TRK".to_string(), Some(3));
    let m = feed_track_pipeline(m, "storeRoot/A/Record/Song.flac");
    assert_eq!(m.track_id, "TRK");
    assert_eq!(m.track_number, Some(3));
}

#[test]
fn track_machine_fails_fast_on_transport() {
    let m = TrackMachine::new("TRK".to_string(), None);
    let m = m.step(Event::Transport("connection refused".to_string()));
    match m.stage {
        TrackStage::Failed { failure: TrackFailure::Access(AccessError::RequestError(msg)) } => {
            assert_eq!(msg, "connection refused");
        }
        _ => panic!("expected a transport failure"),
    }
}

#[test]
fn track_machine_fails_fast_on_tagging() {
    let m = TrackMachine::new("TRK".to_string(), None);
    let m = m.step(Event::Response(TRACK_JSON.to_string()));
    let m = m.step(Event::Response(ALBUM_JSON.to_string()));
    let m = m.step(Event::Response(ARTIST_JSON.to_string()));
    let m = m.step(Event::Response(MANIFEST_JSON.to_string()));
    let m = m.step(Event::Done);
    assert!(matches!(m.stage, TrackStage::Tagging { .. }));
    let m = m.step(Event::TagFailed("not a flac file".to_string()));
    match m.stage {
        TrackStage::Failed { failure: TrackFailure::Access(AccessError::AudioTagging(msg)) } => {
            assert_eq!(msg, "not a flac file");
        }
        _ => panic!("expected a tagging failure"),
    }
}

#[test]
fn track_machine_fails_fast_on_filing() {
    let m = TrackMachine::new("TRK".to_string(), None);
    let m = m.step(Event::Response(TRACK_JSON.to_string()));
    let m = m.step(Event::Response(ALBUM_JSON.to_string()));
    let m = m.step(Event::Response(ARTIST_JSON.to_string()));
    let m = m.step(Event::Response(MANIFEST_JSON.to_string()));
    let m = m.step(Event::Done);
    let m = m.step(Event::Done);
    assert!(matches!(m.stage, TrackStage::Filing { .. }));
    let m = m.step(Event::Stored(Err(tdl::fs::FsError::CantReadTags("/tmp/TRK.flac".to_string()))));
    match m.stage {
        TrackStage::Failed { failure: TrackFailure::Fs(tdl::fs::FsError::CantReadTags(p)) } => {
            assert_eq!(p, "/tmp/TRK.flac");
        }
        _ => panic!("expected a filing failure"),
    }
}

#[test]
fn album_numbers_tracks_from_one_and_fails_fast() {
    let run = AlbumRun::start(
        "ALBUM9".to_string(),
        vec!["t1".to_string(), "t2".to_string(), "t3".to_string()],
    );
    // Track one carries number 1, matching its position in the listing.
    let run = match &run.stage {
        AlbumStage::Running { index, current, .. } => {
            assert_eq!(*index, 0);
            assert_eq!(current.track_id, "t1");
            assert_eq!(current.track_number, Some(1));
            run
        }
        _ => panic!("expected Running"),
    };

    // Drive track one through the whole pipeline, one event at a time.
    let run = run.step(Event::Response(TRACK_JSON.to_string()));
    let run = run.step(Event::Response(ALBUM_JSON.to_string()));
    let run = run.step(Event::Response(ARTIST_JSON.to_string()));
    let run = run.step(Event::Response(MANIFEST_JSON.to_string()));
    let run = run.step(Event::Done);
    let run = run.step(Event::Done);
    let run = run.step(Event::Stored(Ok("storeRoot/A/Record/Song.flac".to_string())));

    // Track one was fully filed; track two is up next, numbered 2.
    let run = match &run.stage {
        AlbumStage::Running { index, current, .. } => {
            assert_eq!(*index, 1);
            assert_eq!(current.track_id, "t2");
            assert_eq!(current.track_number, Some(2));
            run
        }
        _ => panic!("expected Running on track two"),
    };

    // Track two's resolution fails: the run parks, naming track two and the
    // album; track three is never attempted.
    let run = run.step(Event::Response("{}".to_string()));
    assert_eq!(run.album_id, "ALBUM9");
    match run.stage {
        AlbumStage::Failed { index, track_id, failure } => {
            assert_eq!(index, 1);
            assert_eq!(track_id, "t2");
            assert!(matches!(
                failure,
                TrackFailure::Access(AccessError::MissingField(MissingField::TrackTitle, _))
            ));
        }
        _ => panic!("expected the album run to fail on track two"),
    }
}

#[test]
fn empty_album_completes_at_once() {
    let run = AlbumRun::start("EMPTY".to_string(), vec![]);
    assert!(matches!(run.stage, AlbumStage::Complete { .. }));
}

#[test]
fn last_filed_track_completes_the_album() {
    let run = AlbumRun::start("ONE".to_string(), vec!["t1".to_string()]);
    let run = run.step(Event::Response(TRACK_JSON.to_string()));
    let run = run.step(Event::Response(ALBUM_JSON.to_string()));
    let run = run.step(Event::Response(ARTIST_JSON.to_string()));
    let run = run.step(Event::Response(MANIFEST_JSON.to_string()));
    let run = run.step(Event::Done);
    let run = run.step(Event::Done);
    let run = run.step(Event::Stored(Ok("storeRoot/A/Record/Song.flac".to_string())));
    assert!(matches!(run.stage, AlbumStage::Complete { .. }));
}
