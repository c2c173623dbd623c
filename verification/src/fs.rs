//! The content store: filing a tagged track under `root/artist/album/title`.
//!
//! The caller performs the directory creation and the copy; the destination
//! is computed and checked here, from the tags the caller read back out of
//! the file.

use vstd::prelude::*;
use vstd::string::StringExecFns;
use crate::tags::{tag_vorbis, ascii_upper, get_vorbis_first};
use crate::text::{sanitized, sanitize_component, join_with, dec_str};
use crate::tidal::written_tags;

verus! {

/// Everything filing can fail with; each variant holds the track's path.
pub enum FsError {
    /// A directory could not be created (reported by the caller).
    CantCreate(String),
    /// The track could not be copied into the store (reported by the caller).
    CantCopyTrack(String),
    /// The tags could not be read from the file (reported by the caller).
    CantReadTags(String),
    /// The track carries no album tag.
    MissingAlbum(String),
    /// The track carries no artist tag.
    MissingArtist(String),
    /// The track carries no title tag.
    MissingTitle(String),
}

/// The store: the root of the tag-derived directory tree.
pub struct Dir {
    pub root: String,
}

/// Where one track goes: the directory to create and the file to copy to.
pub struct FilePlan {
    pub dst_dir: String,
    pub dst: String,
}

/// The first value under a key, as the filer reads tags.
pub open spec fn vorbis_first(m: Map<Seq<char>, Seq<Seq<char>>>, key: Seq<char>) -> Option<
    Seq<char>,
> {
    if m.contains_key(ascii_upper(key)) && m[ascii_upper(key)].len() > 0 {
        Some(m[ascii_upper(key)][0])
    } else {
        None
    }
}

/// The album directory for a tag triple: `root/artist/album`, with path
/// separators in the tag values disarmed.
pub open spec fn planned_dir(root: Seq<char>, artist: Seq<char>, album: Seq<char>) -> Seq<char> {
    root + "/"@ + sanitized(artist) + "/"@ + sanitized(album)
}

/// The destination file: `root/artist/album/title.flac`.
pub open spec fn planned_dst(
    root: Seq<char>,
    artist: Seq<char>,
    album: Seq<char>,
    title: Seq<char>,
) -> Seq<char> {
    planned_dir(root, artist, album) + "/"@ + sanitized(title) + ".flac"@
}

/// The destination a tag map yields, when artist, album and title are all
/// present.
pub open spec fn spec_plan(root: Seq<char>, m: Map<Seq<char>, Seq<Seq<char>>>) -> Option<
    Seq<char>,
> {
    match (vorbis_first(m, "artist"@), vorbis_first(m, "album"@), vorbis_first(m, "title"@)) {
        (Some(artist), Some(album), Some(title)) => Some(planned_dst(root, artist, album, title)),
        _ => None,
    }
}

impl Dir {
    /// Opens the store rooted at `root`; the caller creates the directory.
    pub fn new(root: String) -> (r: Dir)
        ensures
            r.root == root,
    {
        Dir { root }
    }

    /// Computes where a tagged track is filed. The caller read the tags out
    /// of the file at `track`, then creates `dst_dir` and copies the file to
    /// `dst`; an absent album, artist or title fails, naming the track.
    pub fn add_music(&self, track: &str, tags: &metaflac::Tag) -> (r: Result<FilePlan, FsError>)
        ensures
            ({
                let m = tag_vorbis(*tags);
                let album = vorbis_first(m, "album"@);
                let artist = vorbis_first(m, "artist"@);
                let title = vorbis_first(m, "title"@);
                match r {
                    Ok(plan) => {
                        &&& album is Some && artist is Some && title is Some
                        &&& plan.dst_dir@ == planned_dir(self.root@, artist->0, album->0)
                        &&& plan.dst@ == planned_dst(self.root@, artist->0, album->0, title->0)
                        &&& Some(plan.dst@) == spec_plan(self.root@, m)
                    },
                    Err(e) => match e {
                        FsError::MissingAlbum(p) => album is None && p@ == track@,
                        FsError::MissingArtist(p) => album is Some && artist is None && p@
                            == track@,
                        FsError::MissingTitle(p) => album is Some && artist is Some && title
                            is None && p@ == track@,
                        _ => false,
                    },
                }
            }),
    {
        let album = match get_vorbis_first(tags, "album") {
            Some(a) => a,
            None => return Err(FsError::MissingAlbum(String::from_str(track))),
        };
        let artist = match get_vorbis_first(tags, "artist") {
            Some(a) => a,
            None => return Err(FsError::MissingArtist(String::from_str(track))),
        };
        let title = match get_vorbis_first(tags, "title") {
            Some(t) => t,
            None => return Err(FsError::MissingTitle(String::from_str(track))),
        };
        let artist_part = sanitize_component(artist.as_str());
        let album_part = sanitize_component(album.as_str());
        let title_part = sanitize_component(title.as_str());
        let mut dst_dir = self.root.clone();
        dst_dir.append("/");
        dst_dir.append(artist_part.as_str());
        dst_dir.append("/");
        dst_dir.append(album_part.as_str());
        let mut dst = dst_dir.clone();
        dst.append("/");
        dst.append(title_part.as_str());
        dst.append(".flac");
        Ok(FilePlan { dst_dir, dst })
    }
}

/// Law: filing is deterministic — the planned destination depends only on
/// the store root and the (artist, album, title) tag triple, so two tracks
/// with identical triples collide at the same path.
pub proof fn lemma_filing_deterministic(
    root: Seq<char>,
    m1: Map<Seq<char>, Seq<Seq<char>>>,
    m2: Map<Seq<char>, Seq<Seq<char>>>,
)
    requires
        vorbis_first(m1, "artist"@) == vorbis_first(m2, "artist"@),
        vorbis_first(m1, "album"@) == vorbis_first(m2, "album"@),
        vorbis_first(m1, "title"@) == vorbis_first(m2, "title"@),
    ensures
        spec_plan(root, m1) == spec_plan(root, m2),
{
}

/// Law: the four fields the Tag Writer sets are exactly what the Content
/// Filer reads back — the title, the artist names joined with `"; "`, the
/// album, and the track number as decimal text. An unassigned track number
/// leaves whatever the tag block already held under `track`.
pub proof fn lemma_tag_round_trip(
    m: Map<Seq<char>, Seq<Seq<char>>>,
    title: Seq<char>,
    artists: Seq<Seq<char>>,
    album: Seq<char>,
    track_number: Option<u16>,
)
    ensures
        ({
            let w = written_tags(m, title, artists, album, track_number);
            &&& vorbis_first(w, "title"@) == Some(title)
            &&& vorbis_first(w, "artist"@) == Some(join_with(artists, "; "@))
            &&& vorbis_first(w, "album"@) == Some(album)
            &&& (track_number matches Some(n) ==> vorbis_first(w, "track"@) == Some(
                dec_str(n as nat),
            ))
            &&& (track_number is None ==> vorbis_first(w, "track"@) == vorbis_first(m, "track"@))
        }),
{
    reveal_strlit("title");
    reveal_strlit("artist");
    reveal_strlit("album");
    reveal_strlit("track");
    assert(ascii_upper("title"@).len() == 5);
    assert(ascii_upper("artist"@).len() == 6);
    assert(ascii_upper("album"@).len() == 5);
    assert(ascii_upper("track"@).len() == 5);
    assert(ascii_upper("title"@)[0] == 'T');
    assert(ascii_upper("album"@)[0] == 'A');
    assert(ascii_upper("track"@)[0] == 'T');
    assert(ascii_upper("title"@)[1] == 'I');
    assert(ascii_upper("track"@)[1] == 'R');
    assert(ascii_upper("title"@) != ascii_upper("artist"@));
    assert(ascii_upper("title"@) != ascii_upper("album"@));
    assert(ascii_upper("title"@) != ascii_upper("track"@));
    assert(ascii_upper("artist"@) != ascii_upper("album"@));
    assert(ascii_upper("artist"@) != ascii_upper("track"@));
    assert(ascii_upper("album"@) != ascii_upper("track"@));
}

} // verus!
