//! The service boundary: credentials, request building, and the reading of
//! each response shape.
//!
//! The caller performs the HTTP transfers and hands the response bodies back;
//! everything that decides — which URL, which parameters, how a body is read,
//! which error comes out — is verified here.

use vstd::prelude::*;
use vstd::string::StringExecFns;
use crate::json::{
    JsonValue, JsonModel, obj_get, num_of, then_get, then_idx, then_str, then_arr,
    parse_json, json_of, json_model, json_model_seq, lemma_json_model_seq,
};
use crate::text::{all_digits, dec_val, dec_str, parse_decimal, join_with, join_semicolon,
    format_decimal};
use crate::b64::{b64_of, b64_decoded, b64_encode_str, b64_decode_str};
use crate::tags::{tag_vorbis, ascii_upper, set_vorbis_one};

verus! {

/// Which expected field a metadata response was missing (or mis-typed).
pub enum MissingField {
    /// The track record's title.
    TrackTitle,
    /// The track record's first related album id.
    TrackAlbumId,
    /// The track record's related artist ids (absent, malformed, or empty).
    TrackArtistIds,
    /// The album record's title.
    AlbumTitle,
    /// The artist record's name.
    ArtistName,
    /// The album listing's track entries.
    TrackList,
}

/// Everything the acquisition pipeline can fail with.
pub enum AccessError {
    /// A transport problem, as reported by the caller that performed the
    /// request.
    RequestError(String),
    /// The response body was not JSON (or the token response did not hold
    /// credentials); holds the parser's message.
    DeserializationFailure(String),
    /// The playback-info response lacked a string `manifest` field; holds the
    /// full parsed response.
    ManifestExpected(JsonValue),
    /// The manifest field was not valid base64.
    Base64Decode(base64::DecodeError),
    /// The produced container file could not be tagged.
    AudioTagging(String),
    /// A metadata response did not hold the named field; holds the full
    /// parsed response.
    MissingField(MissingField, JsonValue),
}

/// Bearer credentials as the token endpoint reports them.
pub struct ClientCredentials {
    pub access_token: String,
    pub token_type: String,
    /// Number of seconds before expiry.
    pub expires_in: u32,
}

/// One session's two credential sets; immutable for the session's lifetime.
pub struct Access {
    pub api_creds: ClientCredentials,
    pub streaming_creds: ClientCredentials,
}

/// A bearer-authenticated GET for the caller to perform.
pub struct HttpRequest {
    pub url: String,
    /// Query parameters, appended in order.
    pub query: Vec<(String, String)>,
    pub bearer: String,
    pub user_agent: Option<String>,
}

/// The client-credentials exchange POST for the caller to perform.
pub struct TokenRequest {
    pub url: String,
    pub authorization: String,
    pub content_type: String,
    pub body: String,
}

/// The OAuth2 client-credentials exchange: HTTP Basic over the token
/// endpoint, `grant_type=client_credentials`.
pub fn login_request(client_id: &str, client_secret: &str) -> (r: TokenRequest)
    ensures
        r.url@ == "https://auth.tidal.com/v1/oauth2/token"@,
        r.authorization@ == "Basic "@ + b64_of(client_id@ + ":"@ + client_secret@),
        r.content_type@ == "application/x-www-form-urlencoded"@,
        r.body@ == "grant_type=client_credentials"@,
{
    let mut pair = String::from_str(client_id);
    pair.append(":");
    pair.append(client_secret);
    let encoded = b64_encode_str(pair.as_str());
    let mut authorization = String::from_str("Basic ");
    authorization.append(encoded.as_str());
    TokenRequest {
        url: String::from_str("https://auth.tidal.com/v1/oauth2/token"),
        authorization,
        content_type: String::from_str("application/x-www-form-urlencoded"),
        body: String::from_str("grant_type=client_credentials"),
    }
}

/// The credentials a token response carries, when it has the right shape:
/// string `access_token` and `token_type`, numeric `expires_in` that fits.
pub open spec fn spec_credentials(m: JsonModel) -> Option<(Seq<char>, Seq<char>, u32)> {
    let tok = then_str(obj_get(m, "access_token"@));
    let ty = then_str(obj_get(m, "token_type"@));
    let exp = match obj_get(m, "expires_in"@) {
        Some(j) => num_of(j),
        None => None,
    };
    if tok is Some && ty is Some && exp is Some && exp->0.len() > 0 && all_digits(exp->0)
        && dec_val(exp->0) <= u32::MAX {
        Some((tok->0, ty->0, dec_val(exp->0) as u32))
    } else {
        None
    }
}

impl Access {
    /// Builds a session from the token endpoint's response body and the
    /// caller-supplied streaming token, which gets a fixed assumed expiry of
    /// 14400 seconds (the service reports none for it).
    pub fn log_in(token_response: &str, streaming_tok: &str) -> (r: Result<Access, AccessError>)
        ensures
            ({
                match json_of(token_response@) {
                    None => r matches Err(AccessError::DeserializationFailure(_)),
                    Some(m) => match spec_credentials(m) {
                        None => r matches Err(AccessError::DeserializationFailure(_)),
                        Some((tok, ty, exp)) => r matches Ok(a) && {
                            &&& a.api_creds.access_token@ == tok
                            &&& a.api_creds.token_type@ == ty
                            &&& a.api_creds.expires_in == exp
                            &&& a.streaming_creds.access_token@ == streaming_tok@
                            &&& a.streaming_creds.token_type@ == "Bearer"@
                            &&& a.streaming_creds.expires_in == 14400
                        },
                    },
                }
            }),
    {
        let v = match parse_json(token_response) {
            Ok(v) => v,
            Err(e) => return Err(AccessError::DeserializationFailure(e)),
        };
        let access_token: String = match v.get("access_token") {
            Some(j) => match j.as_string() {
                Some(s) => s.clone(),
                None => return Err(bad_credentials()),
            },
            None => return Err(bad_credentials()),
        };
        let token_type: String = match v.get("token_type") {
            Some(j) => match j.as_string() {
                Some(s) => s.clone(),
                None => return Err(bad_credentials()),
            },
            None => return Err(bad_credentials()),
        };
        let expires_in: u32 = match v.get("expires_in") {
            Some(j) => match j.as_num_text() {
                Some(t) => match parse_decimal(t.as_str()) {
                    Some(n) => if n <= u32::MAX as u64 {
                        n as u32
                    } else {
                        return Err(bad_credentials());
                    },
                    None => return Err(bad_credentials()),
                },
                None => return Err(bad_credentials()),
            },
            None => return Err(bad_credentials()),
        };
        Ok(
            Access {
                api_creds: ClientCredentials { access_token, token_type, expires_in },
                streaming_creds: ClientCredentials {
                    access_token: String::from_str(streaming_tok),
                    token_type: String::from_str("Bearer"),
                    expires_in: 14400,
                },
            },
        )
    }

    /// A GET against the metadata API root: the fixed country-code parameter
    /// first, then the caller's parameters, under the API bearer token. The
    /// slug is interpolated as given, not percent-encoded: service-assigned
    /// ids are passed through unvalidated.
    pub fn api_request(&self, slug: &str, extra: Vec<(String, String)>) -> (r: HttpRequest)
        ensures
            r.url@ == "https://openapi.tidal.com/v2/"@ + slug@,
            r.query@.len() == 1 + extra@.len(),
            r.query@[0].0@ == "countryCode"@,
            r.query@[0].1@ == "US"@,
            r.query@.skip(1) == extra@,
            r.bearer@ == self.api_creds.access_token@,
            r.user_agent is None,
    {
        let mut url = String::from_str("https://openapi.tidal.com/v2/");
        url.append(slug);
        let mut query: Vec<(String, String)> = Vec::new();
        query.push((String::from_str("countryCode"), String::from_str("US")));
        let mut rest = extra;
        query.append(&mut rest);
        proof {
            assert(query@.skip(1) =~= extra@);
        }
        HttpRequest {
            url,
            query,
            bearer: self.api_creds.access_token.clone(),
            user_agent: None,
        }
    }

    /// The album listing request: `albums/{id}/relationships/items`.
    pub fn tracks_request(&self, album_id: &str) -> (r: HttpRequest)
        ensures
            r.url@ == "https://openapi.tidal.com/v2/"@ + ("albums/"@ + album_id@
                + "/relationships/items"@),
            r.query@.len() == 1,
            r.query@[0].0@ == "countryCode"@,
            r.query@[0].1@ == "US"@,
            r.bearer@ == self.api_creds.access_token@,
            r.user_agent is None,
    {
        let mut slug = String::from_str("albums/");
        slug.append(album_id);
        slug.append("/relationships/items");
        let r = self.api_request(slug.as_str(), Vec::new());
        proof {
            assert(r.query@.skip(1) =~= Seq::<(String, String)>::empty());
            assert(r.query@.len() == 1);
        }
        r
    }

    /// The playback-info GET: fixed highest-lossless quality, streaming mode
    /// and full presentation, under the streaming bearer token, with the
    /// fixed User-Agent the service insists on.
    pub fn manifest_request(&self, track_id: &str) -> (r: HttpRequest)
        ensures
            r.url@ == "https://tidal.com/v1/tracks/"@ + track_id@
                + "/playbackinfo?audioquality=HI_RES_LOSSLESS&playbackmode=STREAM&assetpresentation=FULL"@,
            r.query@.len() == 0,
            r.bearer@ == self.streaming_creds.access_token@,
            r.user_agent matches Some(ua) && ua@
                == "i just wanna download music please don't block me@tali.network 🥺"@,
    {
        let mut url = String::from_str("https://tidal.com/v1/tracks/");
        url.append(track_id);
        url.append(
            "/playbackinfo?audioquality=HI_RES_LOSSLESS&playbackmode=STREAM&assetpresentation=FULL",
        );
        HttpRequest {
            url,
            query: Vec::new(),
            bearer: self.streaming_creds.access_token.clone(),
            user_agent: Some(
                String::from_str(
                    "i just wanna download music please don't block me@tali.network 🥺",
                ),
            ),
        }
    }
}

fn bad_credentials() -> (r: AccessError)
    ensures
        r matches AccessError::DeserializationFailure(_),
{
    AccessError::DeserializationFailure(
        String::from_str("token response did not hold credentials"),
    )
}

/// The `manifest` field of a playback-info response, when it is a string.
pub open spec fn manifest_field(m: JsonModel) -> Option<Seq<char>> {
    then_str(obj_get(m, "manifest"@))
}

/// Reads a playback-info response body: extracts the string `manifest` field
/// and decodes its base64 into the raw stream bytes.
pub fn decode_manifest(response: &str) -> (r: Result<Vec<u8>, AccessError>)
    ensures
        ({
            match json_of(response@) {
                None => r matches Err(AccessError::DeserializationFailure(_)),
                Some(m) => match manifest_field(m) {
                    None => r matches Err(AccessError::ManifestExpected(v)) && v@ == m,
                    Some(txt) => match b64_decoded(txt) {
                        None => r matches Err(AccessError::Base64Decode(_)),
                        Some(bytes) => r matches Ok(b) && b@ == bytes,
                    },
                },
            }
        }),
{
    let v = match parse_json(response) {
        Ok(v) => v,
        Err(e) => return Err(AccessError::DeserializationFailure(e)),
    };
    let found: Option<String> = match v.get("manifest") {
        Some(j) => match j.as_string() {
            Some(s) => Some(s.clone()),
            None => None,
        },
        None => None,
    };
    let txt = match found {
        Some(t) => t,
        None => return Err(AccessError::ManifestExpected(v)),
    };
    match b64_decode_str(txt.as_str()) {
        Ok(bytes) => Ok(bytes),
        Err(e) => Err(AccessError::Base64Decode(e)),
    }
}

/// The string `id` of one listing entry.
pub open spec fn id_of(m: JsonModel) -> Option<Seq<char>> {
    then_str(obj_get(m, "id"@))
}

/// The ids of all listing entries, in order; nothing when one lacks an id.
pub open spec fn ids_of(items: Seq<JsonModel>) -> Option<Seq<Seq<char>>>
    decreases items.len(),
{
    if items.len() == 0 {
        Some(Seq::empty())
    } else {
        match (id_of(items[0]), ids_of(items.drop_first())) {
            (Some(id), Some(rest)) => Some(seq![id] + rest),
            _ => None,
        }
    }
}

proof fn lemma_ids_of_none_at(items: Seq<JsonModel>, i: int)
    requires
        0 <= i < items.len(),
        id_of(items[i]) is None,
    ensures
        ids_of(items) is None,
    decreases i,
{
    if i > 0 {
        lemma_ids_of_none_at(items.drop_first(), i - 1);
    }
}

proof fn lemma_ids_of_take_step(items: Seq<JsonModel>, i: int)
    requires
        0 <= i < items.len(),
        ids_of(items.take(i)) is Some,
        id_of(items[i]) is Some,
    ensures
        ids_of(items.take(i + 1)) == Some(ids_of(items.take(i))->0.push(id_of(items[i])->0)),
    decreases i,
{
    if i == 0 {
        assert(items.take(1).drop_first() =~= Seq::<JsonModel>::empty());
        assert(items.take(1)[0] == items[0]);
        assert(seq![id_of(items[0])->0] + Seq::<Seq<char>>::empty() =~= Seq::<
            Seq<char>,
        >::empty().push(id_of(items[0])->0));
        assert(items.take(0) =~= Seq::<JsonModel>::empty());
    } else {
        let tail = items.drop_first();
        assert(items.take(i).drop_first() =~= tail.take(i - 1));
        assert(items.take(i + 1).drop_first() =~= tail.take(i));
        assert(tail[i - 1] == items[i]);
        lemma_ids_of_take_step(tail, i - 1);
        let x = ids_of(items.take(i))->0;
        let hd = id_of(items[0])->0;
        let y = ids_of(tail.take(i - 1))->0;
        assert(x == seq![hd] + y);
        assert(ids_of(tail.take(i)) == Some(y.push(id_of(items[i])->0)));
        assert(items.take(i + 1)[0] == items[0]);
        assert(seq![hd] + y.push(id_of(items[i])->0) =~= (seq![hd] + y).push(id_of(items[i])->0));
    }
}

/// Collects the `id` of each entry, in order.
fn collect_ids(items: &Vec<JsonValue>) -> (r: Option<Vec<String>>)
    ensures
        ({
            let ms = json_model_seq(items@);
            match r {
                Some(v) => ids_of(ms) == Some(v.deep_view()),
                None => ids_of(ms) is None,
            }
        }),
{
    proof {
        lemma_json_model_seq(items@);
    }
    let ghost ms = json_model_seq(items@);
    let mut out: Vec<String> = Vec::new();
    let mut i: usize = 0;
    while i < items.len()
        invariant
            0 <= i <= items@.len(),
            ms == json_model_seq(items@),
            ms.len() == items@.len(),
            forall|j: int| 0 <= j < items@.len() ==> ms[j] == json_model(items@[j]),
            out@.len() == i,
            ids_of(ms.take(i as int)) == Some(out.deep_view()),
        decreases items@.len() - i,
    {
        let found: Option<String> = match items[i].get("id") {
            Some(j) => match j.as_string() {
                Some(s) => Some(s.clone()),
                None => None,
            },
            None => None,
        };
        match found {
            Some(s) => {
                let ghost dv0 = out.deep_view();
                out.push(s);
                proof {
                    lemma_ids_of_take_step(ms, i as int);
                    assert(out.deep_view() =~= dv0.push(out@[i as int]@));
                }
            },
            None => {
                proof {
                    lemma_ids_of_none_at(ms, i as int);
                }
                return None;
            },
        }
        i += 1;
    }
    proof {
        assert(ms.take(items@.len() as int) =~= ms);
    }
    Some(out)
}

/// The track ids an album listing carries: the `data` array's entry ids.
pub open spec fn track_list(m: JsonModel) -> Option<Seq<Seq<char>>> {
    match then_arr(obj_get(m, "data"@)) {
        Some(items) => ids_of(items),
        None => None,
    }
}

impl Access {
    /// Reads an album listing response body into the ordered track id list.
    pub fn get_tracks(&self, response: &str) -> (r: Result<Vec<String>, AccessError>)
        ensures
            ({
                match json_of(response@) {
                    None => r matches Err(AccessError::DeserializationFailure(_)),
                    Some(m) => match track_list(m) {
                        None => r matches Err(AccessError::MissingField(f, v)) && f
                            == MissingField::TrackList && v@ == m,
                        Some(ids) => r matches Ok(ts) && ts.deep_view() == ids,
                    },
                }
            }),
    {
        let v = match parse_json(response) {
            Ok(v) => v,
            Err(e) => return Err(AccessError::DeserializationFailure(e)),
        };
        let collected: Option<Vec<String>> = match v.get("data") {
            Some(d) => match d {
                JsonValue::Arr(items) => collect_ids(items),
                _ => None,
            },
            None => None,
        };
        match collected {
            Some(ids) => Ok(ids),
            None => Err(AccessError::MissingField(MissingField::TrackList, v)),
        }
    }
}

/// Where a muxed track is put before tagging and filing.
pub open spec fn mux_output_path(id: Seq<char>) -> Seq<char> {
    "/tmp/"@ + id + ".flac"@
}

/// One invocation of the external remux process.
pub struct MuxJob {
    pub program: String,
    /// Arguments, in order; the caller pipes the manifest bytes to the
    /// process's standard input and must close that pipe before waiting.
    pub args: Vec<String>,
    pub output: String,
}

/// The external remux invocation: a protocol-whitelisted input read from
/// standard input, stream-copied (no re-encode) into the output container.
pub fn mux_job(track_id: &str) -> (r: MuxJob)
    ensures
        r.program@ == "ffmpeg"@,
        r.output@ == mux_output_path(track_id@),
        r.args.deep_view() == seq![
            "-protocol_whitelist"@,
            "fd,file,https,tcp,tls"@,
            "-i"@,
            "-"@,
            "-c"@,
            "copy"@,
            mux_output_path(track_id@),
        ],
{
    let mut output = String::from_str("/tmp/");
    output.append(track_id);
    output.append(".flac");
    let mut args: Vec<String> = Vec::new();
    args.push(String::from_str("-protocol_whitelist"));
    args.push(String::from_str("fd,file,https,tcp,tls"));
    args.push(String::from_str("-i"));
    args.push(String::from_str("-"));
    args.push(String::from_str("-c"));
    args.push(String::from_str("copy"));
    args.push(output.clone());
    proof {
        assert(args.deep_view() =~= seq![
            "-protocol_whitelist"@,
            "fd,file,https,tcp,tls"@,
            "-i"@,
            "-"@,
            "-c"@,
            "copy"@,
            mux_output_path(track_id@),
        ]);
    }
    MuxJob { program: String::from_str("ffmpeg"), args, output }
}

/// The flat metadata record the resolver assembles for one track.
pub struct RelevantMetadata {
    pub title: String,
    /// Artist names, in the track record's order.
    pub artists: Vec<String>,
    pub album: String,
    /// Assigned by the caller (the orchestrator), never by the service.
    pub track_number: Option<u16>,
}

/// A record fit to be written: title, album and the artist list non-empty,
/// and no artist name empty.
pub open spec fn metadata_complete(md: RelevantMetadata) -> bool {
    &&& md.title@.len() > 0
    &&& md.album@.len() > 0
    &&& md.artists@.len() > 0
    &&& forall|i: int| 0 <= i < md.artists@.len() ==> (#[trigger] md.artists@[i])@.len() > 0
}

/// The vorbis fields the writer sets: title, the `"; "`-joined artist value,
/// album, and the decimal track number when one was assigned.
pub open spec fn written_tags(
    m: Map<Seq<char>, Seq<Seq<char>>>,
    title: Seq<char>,
    artists: Seq<Seq<char>>,
    album: Seq<char>,
    track_number: Option<u16>,
) -> Map<Seq<char>, Seq<Seq<char>>> {
    let base = m.insert(ascii_upper("title"@), seq![title]).insert(
        ascii_upper("artist"@),
        seq![join_with(artists, "; "@)],
    ).insert(ascii_upper("album"@), seq![album]);
    match track_number {
        Some(n) => base.insert(ascii_upper("track"@), seq![dec_str(n as nat)]),
        None => base,
    }
}

/// A `data.attributes.<field>` string of a record response.
pub open spec fn data_attr(m: JsonModel, field: Seq<char>) -> Option<Seq<char>> {
    then_str(then_get(then_get(then_get(Some(m), "data"@), "attributes"@), field))
}

/// The track record's title.
pub open spec fn track_title(m: JsonModel) -> Option<Seq<char>> {
    data_attr(m, "title"@)
}

/// The album record's title.
pub open spec fn album_title(m: JsonModel) -> Option<Seq<char>> {
    data_attr(m, "title"@)
}

/// The artist record's name.
pub open spec fn artist_name(m: JsonModel) -> Option<Seq<char>> {
    data_attr(m, "name"@)
}

/// The track record's first related album id.
pub open spec fn track_album_id(m: JsonModel) -> Option<Seq<char>> {
    let rel = then_get(then_get(Some(m), "data"@), "relationships"@);
    then_str(then_get(then_idx(then_get(then_get(rel, "albums"@), "data"@), 0), "id"@))
}

/// The track record's related artist ids, in order.
pub open spec fn track_artist_ids(m: JsonModel) -> Option<Seq<Seq<char>>> {
    let rel = then_get(then_get(Some(m), "data"@), "relationships"@);
    match then_arr(then_get(then_get(rel, "artists"@), "data"@)) {
        Some(items) => ids_of(items),
        None => None,
    }
}

/// How a track record reads: title, first album id and artist ids — or the
/// first missing field, checked in that order. An empty title and an empty
/// artist list count as missing.
pub open spec fn spec_track_parse(m: JsonModel) -> Result<
    (Seq<char>, Seq<char>, Seq<Seq<char>>),
    MissingField,
> {
    let t = track_title(m);
    let a = track_album_id(m);
    let ids = track_artist_ids(m);
    if t is None || t->0.len() == 0 {
        Err(MissingField::TrackTitle)
    } else if a is None {
        Err(MissingField::TrackAlbumId)
    } else if ids is None || ids->0.len() == 0 {
        Err(MissingField::TrackArtistIds)
    } else {
        Ok((t->0, a->0, ids->0))
    }
}

/// How an album record reads: its title, which may not be empty.
pub open spec fn spec_album_parse(m: JsonModel) -> Result<Seq<char>, MissingField> {
    let t = album_title(m);
    if t is None || t->0.len() == 0 {
        Err(MissingField::AlbumTitle)
    } else {
        Ok(t->0)
    }
}

/// How an artist record reads: its name, which may not be empty.
pub open spec fn spec_artist_parse(m: JsonModel) -> Result<Seq<char>, MissingField> {
    let n = artist_name(m);
    if n is None || n->0.len() == 0 {
        Err(MissingField::ArtistName)
    } else {
        Ok(n->0)
    }
}

fn get_data_attr(v: &JsonValue, field: &str) -> (r: Option<String>)
    ensures
        match r {
            Some(s) => data_attr(v@, field@) == Some(s@),
            None => data_attr(v@, field@) is None,
        },
{
    match v.get("data") {
        Some(d) => match d.get("attributes") {
            Some(a) => match a.get(field) {
                Some(t) => match t.as_string() {
                    Some(s) => Some(s.clone()),
                    None => None,
                },
                None => None,
            },
            None => None,
        },
        None => None,
    }
}

fn get_album_id(v: &JsonValue) -> (r: Option<String>)
    ensures
        match r {
            Some(s) => track_album_id(v@) == Some(s@),
            None => track_album_id(v@) is None,
        },
{
    match v.get("data") {
        Some(d) => match d.get("relationships") {
            Some(rel) => match rel.get("albums") {
                Some(al) => match al.get("data") {
                    Some(ad) => match ad.idx(0) {
                        Some(a0) => match a0.get("id") {
                            Some(idj) => match idj.as_string() {
                                Some(s) => Some(s.clone()),
                                None => None,
                            },
                            None => None,
                        },
                        None => None,
                    },
                    None => None,
                },
                None => None,
            },
            None => None,
        },
        None => None,
    }
}

fn get_artist_ids(v: &JsonValue) -> (r: Option<Vec<String>>)
    ensures
        match r {
            Some(ids) => track_artist_ids(v@) == Some(ids.deep_view()),
            None => track_artist_ids(v@) is None,
        },
{
    match v.get("data") {
        Some(d) => match d.get("relationships") {
            Some(rel) => match rel.get("artists") {
                Some(ar) => match ar.get("data") {
                    Some(ad) => match ad {
                        JsonValue::Arr(items) => collect_ids(items),
                        _ => None,
                    },
                    None => None,
                },
                None => None,
            },
            None => None,
        },
        None => None,
    }
}

fn parse_track(v: &JsonValue) -> (r: Result<(String, String, Vec<String>), MissingField>)
    ensures
        match r {
            Ok((title, album_id, ids)) => spec_track_parse(v@) == Ok::<
                (Seq<char>, Seq<char>, Seq<Seq<char>>),
                MissingField,
            >((title@, album_id@, ids.deep_view())),
            Err(f) => spec_track_parse(v@) == Err::<
                (Seq<char>, Seq<char>, Seq<Seq<char>>),
                MissingField,
            >(f),
        },
{
    let title = match get_data_attr(v, "title") {
        Some(t) => t,
        None => return Err(MissingField::TrackTitle),
    };
    if title.as_str().is_empty() {
        return Err(MissingField::TrackTitle);
    }
    let album_id = match get_album_id(v) {
        Some(a) => a,
        None => return Err(MissingField::TrackAlbumId),
    };
    let ids = match get_artist_ids(v) {
        Some(ids) => ids,
        None => return Err(MissingField::TrackArtistIds),
    };
    if ids.len() == 0 {
        return Err(MissingField::TrackArtistIds);
    }
    Ok((title, album_id, ids))
}

/// The resolver walks track, then album, then each artist, one request at a
/// time: the caller performs the request it asks for and feeds the response
/// body back.
pub enum Resolver {
    /// Waiting for the track record.
    FetchTrack { track_id: String },
    /// Waiting for the album record.
    FetchAlbum { title: String, album_id: String, artist_ids: Vec<String> },
    /// Waiting for the artist record at position `names.len()`.
    FetchArtists { title: String, album: String, artist_ids: Vec<String>, names: Vec<String> },
    /// Resolution finished.
    Done { metadata: RelevantMetadata },
}

/// How one response advances the resolver: the relation `feed` satisfies,
/// over the parse of the response body.
pub open spec fn feed_outcome(
    pre: Resolver,
    j: Option<JsonModel>,
    r: Result<Resolver, AccessError>,
) -> bool {
    match j {
        None => r matches Err(AccessError::DeserializationFailure(_)),
        Some(m) => match pre {
            Resolver::FetchTrack { .. } => match spec_track_parse(m) {
                Err(f) => r matches Err(AccessError::MissingField(f2, v)) && f2 == f && v@ == m,
                Ok((t, a, ids)) => r matches Ok(next) && next matches Resolver::FetchAlbum {
                    title,
                    album_id,
                    artist_ids,
                } && title@ == t && album_id@ == a && artist_ids.deep_view() == ids,
            },
            Resolver::FetchAlbum { title, album_id, artist_ids } => match spec_album_parse(m) {
                Err(f) => r matches Err(AccessError::MissingField(f2, v)) && f2 == f && v@ == m,
                Ok(al) => r matches Ok(next) && next matches Resolver::FetchArtists {
                    title: t2,
                    album,
                    artist_ids: ids2,
                    names,
                } && t2 == title && album@ == al && ids2 == artist_ids && names@.len() == 0,
            },
            Resolver::FetchArtists { title, album, artist_ids, names } => match spec_artist_parse(
                m,
            ) {
                Err(f) => r matches Err(AccessError::MissingField(f2, v)) && f2 == f && v@ == m,
                Ok(nm) => if names@.len() + 1 == artist_ids@.len() {
                    r matches Ok(next) && next matches Resolver::Done { metadata } && {
                        &&& metadata.title == title
                        &&& metadata.album == album
                        &&& metadata.artists.deep_view() == names.deep_view().push(nm)
                        &&& metadata.track_number is None
                    }
                } else {
                    r matches Ok(next) && next matches Resolver::FetchArtists {
                        title: t2,
                        album: al2,
                        artist_ids: ids2,
                        names: n2,
                    } && t2 == title && al2 == album && ids2 == artist_ids && n2.deep_view()
                        == names.deep_view().push(nm)
                },
            },
            Resolver::Done { .. } => false,
        },
    }
}

impl Resolver {
    /// A resolver that is still fit to run.
    pub open spec fn wf(self) -> bool {
        match self {
            Resolver::FetchTrack { .. } => true,
            Resolver::FetchAlbum { title, album_id, artist_ids } => title@.len() > 0
                && artist_ids@.len() > 0,
            Resolver::FetchArtists { title, album, artist_ids, names } => {
                &&& title@.len() > 0
                &&& album@.len() > 0
                &&& artist_ids@.len() > 0
                &&& names@.len() < artist_ids@.len()
                &&& forall|i: int| 0 <= i < names@.len() ==> (#[trigger] names@[i])@.len() > 0
            },
            Resolver::Done { metadata } => metadata_complete(metadata) && metadata.track_number
                is None,
        }
    }

    /// Begins resolution of one track.
    pub fn new(track_id: String) -> (r: Resolver)
        ensures
            r == (Resolver::FetchTrack { track_id }),
            r.wf(),
    {
        Resolver::FetchTrack { track_id }
    }

    /// The request to perform next; nothing once resolution has finished.
    pub fn request(&self, access: &Access) -> (r: Option<HttpRequest>)
        requires
            self.wf(),
        ensures
            match self {
                Resolver::FetchTrack { track_id } => r matches Some(q) && {
                    &&& q.url@ == "https://openapi.tidal.com/v2/"@ + ("tracks/"@ + track_id@)
                    &&& q.query@.len() == 3
                    &&& q.query@[0].0@ == "countryCode"@ && q.query@[0].1@ == "US"@
                    &&& q.query@[1].0@ == "include"@ && q.query@[1].1@ == "artists"@
                    &&& q.query@[2].0@ == "include"@ && q.query@[2].1@ == "albums"@
                    &&& q.bearer@ == access.api_creds.access_token@
                    &&& q.user_agent is None
                },
                Resolver::FetchAlbum { album_id, .. } => r matches Some(q) && {
                    &&& q.url@ == "https://openapi.tidal.com/v2/"@ + ("albums/"@ + album_id@)
                    &&& q.query@.len() == 1
                    &&& q.query@[0].0@ == "countryCode"@ && q.query@[0].1@ == "US"@
                    &&& q.bearer@ == access.api_creds.access_token@
                    &&& q.user_agent is None
                },
                Resolver::FetchArtists { artist_ids, names, .. } => r matches Some(q) && {
                    &&& q.url@ == "https://openapi.tidal.com/v2/"@ + ("artists/"@ + (
                    artist_ids@[names@.len() as int])@)
                    &&& q.query@.len() == 1
                    &&& q.query@[0].0@ == "countryCode"@ && q.query@[0].1@ == "US"@
                    &&& q.bearer@ == access.api_creds.access_token@
                    &&& q.user_agent is None
                },
                Resolver::Done { .. } => r is None,
            },
    {
        match self {
            Resolver::FetchTrack { track_id } => {
                let mut slug = String::from_str("tracks/");
                slug.append(track_id.as_str());
                let mut extra: Vec<(String, String)> = Vec::new();
                extra.push((String::from_str("include"), String::from_str("artists")));
                extra.push((String::from_str("include"), String::from_str("albums")));
                let ghost extra0 = extra@;
                let q = access.api_request(slug.as_str(), extra);
                proof {
                    assert(q.query@[1] == q.query@.skip(1)[0]);
                    assert(q.query@[2] == q.query@.skip(1)[1]);
                    assert(q.query@.skip(1)[0] == extra0[0]);
                    assert(q.query@.skip(1)[1] == extra0[1]);
                }
                Some(q)
            },
            Resolver::FetchAlbum { album_id, .. } => {
                let mut slug = String::from_str("albums/");
                slug.append(album_id.as_str());
                let q = access.api_request(slug.as_str(), Vec::new());
                proof {
                    assert(q.query@.len() == 1);
                }
                Some(q)
            },
            Resolver::FetchArtists { artist_ids, names, .. } => {
                let mut slug = String::from_str("artists/");
                slug.append(artist_ids[names.len()].as_str());
                let q = access.api_request(slug.as_str(), Vec::new());
                proof {
                    assert(q.query@.len() == 1);
                }
                Some(q)
            },
            Resolver::Done { .. } => None,
        }
    }

    /// Reads one response and advances. A shape failure names the missing
    /// field and carries the full response; a finished resolver holds a
    /// complete record: non-empty title, album, and artist names.
    pub fn feed(self, response: &str) -> (r: Result<Resolver, AccessError>)
        requires
            self.wf(),
            !(self is Done),
        ensures
            feed_outcome(self, json_of(response@), r),
            r matches Ok(next) ==> next.wf(),
            r matches Ok(next) ==> (next matches Resolver::Done { metadata }
                ==> metadata_complete(metadata)),
    {
        let v = match parse_json(response) {
            Ok(v) => v,
            Err(e) => return Err(AccessError::DeserializationFailure(e)),
        };
        match self {
            Resolver::FetchTrack { .. } => match parse_track(&v) {
                Ok((title, album_id, artist_ids)) => Ok(
                    Resolver::FetchAlbum { title, album_id, artist_ids },
                ),
                Err(f) => Err(AccessError::MissingField(f, v)),
            },
            Resolver::FetchAlbum { title, album_id: _, artist_ids } => {
                let album = match get_data_attr(&v, "title") {
                    Some(t) => t,
                    None => return Err(AccessError::MissingField(MissingField::AlbumTitle, v)),
                };
                if album.as_str().is_empty() {
                    return Err(AccessError::MissingField(MissingField::AlbumTitle, v));
                }
                Ok(Resolver::FetchArtists { title, album, artist_ids, names: Vec::new() })
            },
            Resolver::FetchArtists { title, album, artist_ids, names } => {
                let name = match get_data_attr(&v, "name") {
                    Some(t) => t,
                    None => return Err(AccessError::MissingField(MissingField::ArtistName, v)),
                };
                if name.as_str().is_empty() {
                    return Err(AccessError::MissingField(MissingField::ArtistName, v));
                }
                let mut names = names;
                let ghost names0 = names.deep_view();
                let ghost nm = name@;
                names.push(name);
                proof {
                    assert(names.deep_view() =~= names0.push(nm));
                }
                if names.len() == artist_ids.len() {
                    Ok(
                        Resolver::Done {
                            metadata: RelevantMetadata {
                                title,
                                artists: names,
                                album,
                                track_number: None,
                            },
                        },
                    )
                } else {
                    Ok(Resolver::FetchArtists { title, album, artist_ids, names })
                }
            },
            Resolver::Done { .. } => {
                proof {
                    assert(false);
                }
                Err(AccessError::DeserializationFailure(String::new()))
            },
        }
    }

    /// The resolved record, once resolution has finished.
    pub fn into_metadata(self) -> (r: Option<RelevantMetadata>)
        ensures
            match self {
                Resolver::Done { metadata } => r == Some(metadata),
                _ => r is None,
            },
    {
        match self {
            Resolver::Done { metadata } => Some(metadata),
            _ => None,
        }
    }
}

impl RelevantMetadata {
    /// Writes the resolved fields into the container's tag block; the caller
    /// opened the container and persists the tag afterwards.
    pub fn tag(&self, tag: &mut metaflac::Tag)
        ensures
            tag_vorbis(*final(tag)) == written_tags(
                tag_vorbis(*old(tag)),
                self.title@,
                self.artists.deep_view(),
                self.album@,
                self.track_number,
            ),
    {
        set_vorbis_one(tag, "title", self.title.clone());
        let artist_tag = join_semicolon(&self.artists);
        set_vorbis_one(tag, "artist", artist_tag);
        set_vorbis_one(tag, "album", self.album.clone());
        if let Some(tn) = self.track_number {
            set_vorbis_one(tag, "track", format_decimal(tn as u64));
        }
    }
}

} // verus!
