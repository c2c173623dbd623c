//! Orchestration: the command language of the interactive front, the
//! per-track pipeline and the per-album run.
//!
//! Each machine decides; the caller performs the transfer, process run or
//! copy the current stage asks for and reports the outcome as an `Event`.

use vstd::prelude::*;
use vstd::string::StringExecFns;
use vstd::string::StrSliceExecFns;
use crate::json::{str_eq, json_of};
use crate::text::{u16_text, parse_u16, push_char};
use crate::tidal::{
    Access, AccessError, RelevantMetadata, Resolver, metadata_complete, feed_outcome,
    manifest_field, mux_output_path,
};
use crate::b64::b64_decoded;
use crate::fs::{Dir, FsError};

verus! {

pub open spec fn is_space(c: char) -> bool {
    c == ' ' || c == '\t' || c == '\n' || c == '\r'
}

/// The words of a line, split on runs of whitespace, with `cur` the word
/// being read.
pub open spec fn tokens_acc(s: Seq<char>, cur: Seq<char>) -> Seq<Seq<char>>
    decreases s.len(),
{
    if s.len() == 0 {
        if cur.len() == 0 {
            Seq::empty()
        } else {
            seq![cur]
        }
    } else if is_space(s[0]) {
        if cur.len() == 0 {
            tokens_acc(s.drop_first(), Seq::empty())
        } else {
            seq![cur] + tokens_acc(s.drop_first(), Seq::empty())
        }
    } else {
        tokens_acc(s.drop_first(), cur.push(s[0]))
    }
}

/// The words of a line, split on runs of whitespace.
pub open spec fn tokens_of(s: Seq<char>) -> Seq<Seq<char>> {
    tokens_acc(s, Seq::empty())
}

/// Splits a line into its whitespace-separated words.
pub fn split_words(s: &str) -> (r: Vec<String>)
    ensures
        r.deep_view() == tokens_of(s@),
{
    let n = s.unicode_len();
    let mut out: Vec<String> = Vec::new();
    let mut cur = String::new();
    let mut i: usize = 0;
    proof {
        assert(s@.skip(0) =~= s@);
        assert(out.deep_view() =~= Seq::<Seq<char>>::empty());
        assert(cur@ =~= Seq::<char>::empty());
        assert(Seq::<Seq<char>>::empty() + tokens_acc(s@, cur@) =~= tokens_acc(s@, cur@));
    }
    while i < n
        invariant
            0 <= i <= n,
            n == s@.len(),
            tokens_of(s@) == out.deep_view() + tokens_acc(s@.skip(i as int), cur@),
        decreases n - i,
    {
        let c = s.get_char(i);
        proof {
            assert(s@.skip(i as int).drop_first() =~= s@.skip(i as int + 1));
            assert(s@.skip(i as int)[0] == s@[i as int]);
        }
        if c == ' ' || c == '\t' || c == '\n' || c == '\r' {
            if cur.as_str().is_empty() {
                proof {
                    assert(cur@ =~= Seq::<char>::empty());
                }
            } else {
                let ghost dv0 = out.deep_view();
                let ghost w = cur@;
                let word = cur;
                cur = String::new();
                out.push(word);
                proof {
                    assert(out.deep_view() =~= dv0.push(w));
                    assert(dv0 + (seq![w] + tokens_acc(s@.skip(i as int + 1), Seq::empty()))
                        =~= dv0.push(w) + tokens_acc(s@.skip(i as int + 1), Seq::empty()));
                }
            }
        } else {
            push_char(&mut cur, c);
        }
        i += 1;
    }
    proof {
        assert(s@.skip(n as int) =~= Seq::<char>::empty());
    }
    if !cur.as_str().is_empty() {
        let ghost dv0 = out.deep_view();
        let ghost w = cur@;
        out.push(cur);
        proof {
            assert(out.deep_view() =~= dv0.push(w));
            assert(dv0 + seq![w] =~= dv0.push(w));
        }
    } else {
        proof {
            assert(cur@ =~= Seq::<char>::empty());
            assert(out.deep_view() + Seq::<Seq<char>>::empty() =~= out.deep_view());
        }
    }
    out
}

/// One line of the interactive front.
pub enum Command {
    /// Fetch a single track, optionally with an explicit track number.
    Track { id: String, number: Option<u16> },
    /// Fetch a whole album.
    Album { id: String },
}

/// Why a line is not a command.
pub enum CmdError {
    /// The line holds no word.
    NoCommand,
    /// The command came without its target id.
    NoTarget,
    /// The track number is not a `u16`.
    BadNumber,
    /// The first word is no known command; holds that word.
    UnknownCommand(String),
}

/// Reads one line of the interactive front: `track <id> [number]` or
/// `album <id>`; words past those are ignored.
pub fn parse_cmd(line: &str) -> (r: Result<Command, CmdError>)
    ensures
        ({
            let ts = tokens_of(line@);
            if ts.len() == 0 {
                r matches Err(CmdError::NoCommand)
            } else if ts[0] == "track"@ {
                if ts.len() == 1 {
                    r matches Err(CmdError::NoTarget)
                } else if ts.len() == 2 {
                    r matches Ok(c) && c matches Command::Track { id, number } && id@ == ts[1]
                        && number is None
                } else {
                    match u16_text(ts[2]) {
                        Some(nv) => r matches Ok(c) && c matches Command::Track { id, number }
                            && id@ == ts[1] && number == Some(nv),
                        None => r matches Err(CmdError::BadNumber),
                    }
                }
            } else if ts[0] == "album"@ {
                if ts.len() == 1 {
                    r matches Err(CmdError::NoTarget)
                } else {
                    r matches Ok(c) && c matches Command::Album { id } && id@ == ts[1]
                }
            } else {
                r matches Err(CmdError::UnknownCommand(w)) && w@ == ts[0]
            }
        }),
{
    let words = split_words(line);
    if words.len() == 0 {
        return Err(CmdError::NoCommand);
    }
    if str_eq(words[0].as_str(), "track") {
        if words.len() < 2 {
            return Err(CmdError::NoTarget);
        }
        let id = words[1].clone();
        if words.len() == 2 {
            return Ok(Command::Track { id, number: None });
        }
        match parse_u16(words[2].as_str()) {
            Some(nv) => Ok(Command::Track { id, number: Some(nv) }),
            None => Err(CmdError::BadNumber),
        }
    } else if str_eq(words[0].as_str(), "album") {
        if words.len() < 2 {
            return Err(CmdError::NoTarget);
        }
        Ok(Command::Album { id: words[1].clone() })
    } else {
        Err(CmdError::UnknownCommand(words[0].clone()))
    }
}

/// What a track's acquisition failed with.
pub enum TrackFailure {
    /// Resolution, manifest or tagging failed.
    Access(AccessError),
    /// Filing into the store failed.
    Fs(FsError),
}

/// What the caller reports back after performing the current step.
pub enum Event {
    /// The response body of the requested transfer.
    Response(String),
    /// The requested transfer could not be performed; the message explains.
    Transport(String),
    /// The requested step (the mux run, or the tag write) finished. The mux
    /// process's exit status goes unchecked, as before: a failed remux only
    /// shows when tagging cannot open the output.
    Done,
    /// The container could not be opened or saved for tagging.
    TagFailed(String),
    /// The filing outcome: the destination path, or why filing failed.
    Stored(Result<String, FsError>),
}

/// Where one track stands: `Resolve -> Decode -> Mux -> Tag -> File`,
/// terminal on success or on the first failing stage.
pub enum TrackStage {
    /// Metadata resolution is in flight.
    Resolving { resolver: Resolver },
    /// The playback-info request is in flight.
    FetchingManifest { metadata: RelevantMetadata },
    /// The caller runs the mux job, piping `manifest` to its standard input.
    Muxing { metadata: RelevantMetadata, manifest: Vec<u8> },
    /// The caller opens the container at `path`, has `metadata` tagged into
    /// it, and saves it.
    Tagging { metadata: RelevantMetadata, path: String },
    /// The caller files the track at `path` into the store.
    Filing { path: String },
    /// The track was muxed, tagged and filed at `dst`.
    Filed { path: String, dst: String },
    /// A stage failed; nothing further is attempted.
    Failed { failure: TrackFailure },
}

/// The per-track pipeline.
pub struct TrackMachine {
    pub track_id: String,
    /// Assigned by the caller; an album run numbers tracks from 1.
    pub track_number: Option<u16>,
    pub stage: TrackStage,
}

impl TrackMachine {
    pub open spec fn wf(self) -> bool {
        match self.stage {
            TrackStage::Resolving { resolver } => resolver.wf() && !(resolver is Done),
            TrackStage::FetchingManifest { metadata } => metadata_complete(metadata)
                && metadata.track_number == self.track_number,
            TrackStage::Muxing { metadata, .. } => metadata_complete(metadata)
                && metadata.track_number == self.track_number,
            TrackStage::Tagging { metadata, path } => metadata_complete(metadata)
                && metadata.track_number == self.track_number && path@ == mux_output_path(
                self.track_id@,
            ),
            TrackStage::Filing { path } => path@ == mux_output_path(self.track_id@),
            TrackStage::Filed { path, .. } => path@ == mux_output_path(self.track_id@),
            TrackStage::Failed { .. } => true,
        }
    }

    /// Whether the machine still runs and `ev` answers its current stage.
    pub open spec fn accepts(self, ev: Event) -> bool {
        match self.stage {
            TrackStage::Resolving { .. } => ev is Response || ev is Transport,
            TrackStage::FetchingManifest { .. } => ev is Response || ev is Transport,
            TrackStage::Muxing { .. } => ev is Done,
            TrackStage::Tagging { .. } => ev is Done || ev is TagFailed,
            TrackStage::Filing { .. } => ev is Stored,
            TrackStage::Filed { .. } => false,
            TrackStage::Failed { .. } => false,
        }
    }

    /// Begins acquisition of one track.
    pub fn new(track_id: String, track_number: Option<u16>) -> (r: TrackMachine)
        ensures
            r.track_id == track_id,
            r.track_number == track_number,
            r.wf(),
            r.stage matches TrackStage::Resolving { resolver } && resolver
                matches Resolver::FetchTrack { track_id: tid } && tid@ == track_id@,
    {
        let for_resolver = track_id.clone();
        TrackMachine {
            track_id,
            track_number,
            stage: TrackStage::Resolving { resolver: Resolver::new(for_resolver) },
        }
    }

    /// Advances the pipeline by one answered step, fail-fast: the first
    /// failing stage parks the machine in `Failed`.
    pub fn step(self, ev: Event) -> (r: TrackMachine)
        requires
            self.wf(),
            self.accepts(ev),
        ensures
            r.wf(),
            track_step_outcome(self, ev, r),
    {
        let ghost gpre = self;
        let TrackMachine { track_id, track_number, stage } = self;
        match stage {
            TrackStage::Resolving { resolver } => match ev {
                Event::Response(t) => {
                    let ghost gres = resolver;
                    let fr = resolver.feed(t.as_str());
                    let ghost gfr = fr;
                    let out = match fr {
                        Err(e) => TrackMachine {
                            track_id,
                            track_number,
                            stage: TrackStage::Failed { failure: TrackFailure::Access(e) },
                        },
                        Ok(next) => match next {
                            Resolver::Done { metadata } => {
                                let mut md = metadata;
                                md.track_number = track_number;
                                TrackMachine {
                                    track_id,
                                    track_number,
                                    stage: TrackStage::FetchingManifest { metadata: md },
                                }
                            },
                            other => TrackMachine {
                                track_id,
                                track_number,
                                stage: TrackStage::Resolving { resolver: other },
                            },
                        },
                    };
                    proof {
                        assert(feed_outcome(gres, json_of(t@), gfr));
                        assert(after_resolve(gpre, gfr, out));
                    }
                    out
                },
                Event::Transport(e) => TrackMachine {
                    track_id,
                    track_number,
                    stage: TrackStage::Failed {
                        failure: TrackFailure::Access(AccessError::RequestError(e)),
                    },
                },
                _ => {
                    proof {
                        assert(false);
                    }
                    TrackMachine { track_id, track_number, stage: TrackStage::Resolving { resolver } }
                },
            },
            TrackStage::FetchingManifest { metadata } => match ev {
                Event::Response(t) => match crate::tidal::decode_manifest(t.as_str()) {
                    Ok(bytes) => TrackMachine {
                        track_id,
                        track_number,
                        stage: TrackStage::Muxing { metadata, manifest: bytes },
                    },
                    Err(e) => TrackMachine {
                        track_id,
                        track_number,
                        stage: TrackStage::Failed { failure: TrackFailure::Access(e) },
                    },
                },
                Event::Transport(e) => TrackMachine {
                    track_id,
                    track_number,
                    stage: TrackStage::Failed {
                        failure: TrackFailure::Access(AccessError::RequestError(e)),
                    },
                },
                _ => {
                    proof {
                        assert(false);
                    }
                    TrackMachine {
                        track_id,
                        track_number,
                        stage: TrackStage::FetchingManifest { metadata },
                    }
                },
            },
            TrackStage::Muxing { metadata, manifest: _ } => {
                let mut path = String::from_str("/tmp/");
                path.append(track_id.as_str());
                path.append(".flac");
                TrackMachine {
                    track_id,
                    track_number,
                    stage: TrackStage::Tagging { metadata, path },
                }
            },
            TrackStage::Tagging { metadata, path } => match ev {
                Event::Done => TrackMachine {
                    track_id,
                    track_number,
                    stage: TrackStage::Filing { path },
                },
                Event::TagFailed(msg) => TrackMachine {
                    track_id,
                    track_number,
                    stage: TrackStage::Failed {
                        failure: TrackFailure::Access(AccessError::AudioTagging(msg)),
                    },
                },
                _ => {
                    proof {
                        assert(false);
                    }
                    TrackMachine { track_id, track_number, stage: TrackStage::Tagging { metadata, path } }
                },
            },
            TrackStage::Filing { path } => match ev {
                Event::Stored(Ok(dst)) => TrackMachine {
                    track_id,
                    track_number,
                    stage: TrackStage::Filed { path, dst },
                },
                Event::Stored(Err(e)) => TrackMachine {
                    track_id,
                    track_number,
                    stage: TrackStage::Failed { failure: TrackFailure::Fs(e) },
                },
                _ => {
                    proof {
                        assert(false);
                    }
                    TrackMachine { track_id, track_number, stage: TrackStage::Filing { path } }
                },
            },
            TrackStage::Filed { path, dst } => {
                proof {
                    assert(false);
                }
                TrackMachine { track_id, track_number, stage: TrackStage::Filed { path, dst } }
            },
            TrackStage::Failed { failure } => {
                proof {
                    assert(false);
                }
                TrackMachine { track_id, track_number, stage: TrackStage::Failed { failure } }
            },
        }
    }
}

/// Where a finished or advanced resolver takes the machine: a completed
/// record gets the machine's track number and moves on to the manifest.
pub open spec fn after_resolve(
    pre: TrackMachine,
    fr: Result<Resolver, AccessError>,
    post: TrackMachine,
) -> bool {
    match fr {
        Err(e) => post.stage == (TrackStage::Failed { failure: TrackFailure::Access(e) }),
        Ok(next) => match next {
            Resolver::Done { metadata } => post.stage matches TrackStage::FetchingManifest {
                metadata: md,
            } && md.title == metadata.title && md.artists == metadata.artists && md.album
                == metadata.album && md.track_number == pre.track_number,
            _ => post.stage == (TrackStage::Resolving { resolver: next }),
        },
    }
}

/// How one event advances the per-track pipeline.
pub open spec fn track_step_outcome(pre: TrackMachine, ev: Event, post: TrackMachine) -> bool {
    &&& post.track_id == pre.track_id
    &&& post.track_number == pre.track_number
    &&& match pre.stage {
        TrackStage::Resolving { resolver } => match ev {
            Event::Response(t) => exists|fr: Result<Resolver, AccessError>|
                #[trigger] feed_outcome(resolver, json_of(t@), fr) && after_resolve(pre, fr, post),
            Event::Transport(e) => post.stage matches TrackStage::Failed { failure } && failure
                == TrackFailure::Access(AccessError::RequestError(e)),
            _ => false,
        },
        TrackStage::FetchingManifest { metadata } => match ev {
            Event::Response(t) => match json_of(t@) {
                None => post.stage matches TrackStage::Failed { failure } && failure
                    matches TrackFailure::Access(AccessError::DeserializationFailure(_)),
                Some(m) => match manifest_field(m) {
                    None => post.stage matches TrackStage::Failed { failure } && failure
                        matches TrackFailure::Access(AccessError::ManifestExpected(v)) && v@ == m,
                    Some(txt) => match b64_decoded(txt) {
                        None => post.stage matches TrackStage::Failed { failure } && failure
                            matches TrackFailure::Access(AccessError::Base64Decode(_)),
                        Some(bytes) => post.stage matches TrackStage::Muxing {
                            metadata: md,
                            manifest,
                        } && md == metadata && manifest@ == bytes,
                    },
                },
            },
            Event::Transport(e) => post.stage matches TrackStage::Failed { failure } && failure
                == TrackFailure::Access(AccessError::RequestError(e)),
            _ => false,
        },
        TrackStage::Muxing { metadata, .. } => ev is Done && (post.stage
            matches TrackStage::Tagging { metadata: md, path } && md == metadata && path@
            == mux_output_path(pre.track_id@)),
        TrackStage::Tagging { metadata, path } => match ev {
            Event::Done => post.stage matches TrackStage::Filing { path: p } && p == path,
            Event::TagFailed(msg) => post.stage matches TrackStage::Failed { failure } && failure
                == TrackFailure::Access(AccessError::AudioTagging(msg)),
            _ => false,
        },
        TrackStage::Filing { path } => match ev {
            Event::Stored(Ok(dst)) => post.stage matches TrackStage::Filed { path: p, dst: d } && p
                == path && d == dst,
            Event::Stored(Err(e)) => post.stage == (TrackStage::Failed {
                failure: TrackFailure::Fs(e),
            }),
            _ => false,
        },
        TrackStage::Filed { .. } => false,
        TrackStage::Failed { .. } => false,
    }
}

/// Where an album run stands.
pub enum AlbumStage {
    /// The track at `index` (numbered `index + 1`) is in flight.
    Running { tracks: Vec<String>, index: usize, current: TrackMachine },
    /// Every listed track was filed (or the listing was empty).
    Complete { tracks: Vec<String> },
    /// The track at `index` failed; later tracks were never attempted.
    Failed { index: usize, track_id: String, failure: TrackFailure },
}

/// The per-album run: the listed tracks, acquired sequentially, fail-fast.
pub struct AlbumRun {
    pub album_id: String,
    pub stage: AlbumStage,
}

impl AlbumRun {
    pub open spec fn wf(self) -> bool {
        match self.stage {
            AlbumStage::Running { tracks, index, current } => {
                &&& (index as int) < tracks@.len()
                &&& current.wf()
                &&& current.track_number == Some(((index + 1) as u16))
                &&& current.track_id@ == (tracks@[index as int])@
                &&& !(current.stage is Filed)
                &&& !(current.stage is Failed)
            },
            _ => true,
        }
    }

    /// Begins an album run over the listed track ids, in their order; an
    /// empty listing is complete at once, else track one gets number 1.
    pub fn start(album_id: String, tracks: Vec<String>) -> (r: AlbumRun)
        ensures
            r.album_id == album_id,
            r.wf(),
            tracks@.len() == 0 ==> (r.stage matches AlbumStage::Complete { tracks: t } && t
                == tracks),
            tracks@.len() > 0 ==> (r.stage matches AlbumStage::Running { tracks: t, index, current }
                && t == tracks && index == 0 && current.track_id@ == (tracks@[0])@
                && current.track_number == Some(1u16) && (current.stage
                matches TrackStage::Resolving { resolver } && (resolver
                matches Resolver::FetchTrack { track_id: tid } && tid@ == (tracks@[0])@))),
    {
        if tracks.len() == 0 {
            AlbumRun { album_id, stage: AlbumStage::Complete { tracks } }
        } else {
            let tid = tracks[0].clone();
            let current = TrackMachine::new(tid, Some(1));
            AlbumRun { album_id, stage: AlbumStage::Running { tracks, index: 0, current } }
        }
    }

    /// Forwards one event to the running track. A filed track starts the
    /// next one with the next number; the last one completes the album; a
    /// failure parks the run naming the track, and nothing after it is
    /// attempted.
    pub fn step(self, ev: Event) -> (r: AlbumRun)
        requires
            self.wf(),
            self.stage matches AlbumStage::Running { current, .. } && current.accepts(ev),
        ensures
            r.wf(),
            r.album_id == self.album_id,
            album_step_outcome(self, ev, r),
    {
        let ghost gpre = self;
        let AlbumRun { album_id, stage } = self;
        match stage {
            AlbumStage::Running { tracks, index, current } => {
                let tm = current.step(ev);
                let ghost gtm = tm;
                let TrackMachine { track_id: t_id, track_number: t_num, stage: t_stage } = tm;
                let out = match t_stage {
                    TrackStage::Filed { .. } => {
                        let len = tracks.len();
                        if index + 1 < len {
                            let tid = tracks[index + 1].clone();
                            let next = TrackMachine::new(
                                tid,
                                Some(#[verifier::truncate] ((index + 2) as u16)),
                            );
                            AlbumRun {
                                album_id,
                                stage: AlbumStage::Running {
                                    tracks,
                                    index: index + 1,
                                    current: next,
                                },
                            }
                        } else {
                            AlbumRun { album_id, stage: AlbumStage::Complete { tracks } }
                        }
                    },
                    TrackStage::Failed { failure } => {
                        let track_id = tracks[index].clone();
                        AlbumRun {
                            album_id,
                            stage: AlbumStage::Failed { index, track_id, failure },
                        }
                    },
                    other => AlbumRun {
                        album_id,
                        stage: AlbumStage::Running {
                            tracks,
                            index,
                            current: TrackMachine {
                                track_id: t_id,
                                track_number: t_num,
                                stage: other,
                            },
                        },
                    },
                };
                proof {
                    assert(album_after(gpre, gtm, out));
                }
                out
            },
            AlbumStage::Complete { tracks } => {
                proof {
                    assert(false);
                }
                AlbumRun { album_id, stage: AlbumStage::Complete { tracks } }
            },
            AlbumStage::Failed { index, track_id, failure } => {
                proof {
                    assert(false);
                }
                AlbumRun { album_id, stage: AlbumStage::Failed { index, track_id, failure } }
            },
        }
    }
}

/// Where the forwarded track machine takes the album run.
pub open spec fn album_after(pre: AlbumRun, tm: TrackMachine, post: AlbumRun) -> bool {
    match pre.stage {
        AlbumStage::Running { tracks, index, current } => match tm.stage {
            TrackStage::Filed { .. } => if index as int + 1 < tracks@.len() {
                post.stage matches AlbumStage::Running { tracks: t2, index: i2, current: c2 } && t2
                    == tracks && i2 == index + 1 && c2.track_id@ == (tracks@[index as int + 1])@
                    && c2.track_number == Some(((index + 2) as u16)) && (c2.stage
                    matches TrackStage::Resolving { resolver } && (resolver
                    matches Resolver::FetchTrack { track_id } && track_id@ == (tracks@[index as int
                    + 1])@))
            } else {
                post.stage matches AlbumStage::Complete { tracks: t2 } && t2 == tracks
            },
            TrackStage::Failed { failure } => post.stage matches AlbumStage::Failed {
                index: i2,
                track_id,
                failure: f2,
            } && i2 == index && track_id@ == (tracks@[index as int])@ && f2 == failure,
            _ => post.stage matches AlbumStage::Running { tracks: t2, index: i2, current: c2 } && t2
                == tracks && i2 == index && c2 == tm,
        },
        _ => false,
    }
}

/// How one event advances the album run: the running track advances as the
/// per-track pipeline says, and the run reacts to where it lands.
pub open spec fn album_step_outcome(pre: AlbumRun, ev: Event, post: AlbumRun) -> bool {
    match pre.stage {
        AlbumStage::Running { tracks, index, current } => exists|tm: TrackMachine|
            #[trigger] track_step_outcome(current, ev, tm) && album_after(pre, tm, post),
        _ => false,
    }
}

/// Law: album acquisition assigns track numbers in strictly increasing
/// order starting at 1, matching each id's position in the listing: while
/// the track at `index` is in flight it carries number `index + 1`.
pub proof fn lemma_album_numbering(run: AlbumRun)
    requires
        run.wf(),
        run.stage matches AlbumStage::Running { tracks, .. } && tracks@.len() <= u16::MAX,
    ensures
        run.stage matches AlbumStage::Running { tracks, index, current } ==> current.track_number
            matches Some(n) && n == index + 1 && current.track_id@ == (tracks@[index as int])@,
{
}

/// The interactive front's state: the store and the session it drives.
pub struct Runner {
    pub fs: Dir,
    pub api: Access,
}

impl Runner {
    /// Pairs a store with an authenticated session.
    pub fn new(fs: Dir, api: Access) -> (r: Runner)
        ensures
            r.fs == fs,
            r.api == api,
    {
        Runner { fs, api }
    }
}

} // verus!
