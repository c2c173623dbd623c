//! Trusted boundary to the FLAC tag container.
//!
//! A tag's vorbis comment block is modelled as a map from key to the list of
//! values under it. The container stores keys ASCII upper-cased; both the
//! writer and the reader below apply the same casing, so the model is keyed
//! by the upper-cased form.

use vstd::prelude::*;

verus! {

#[verifier::external_type_specification]
#[verifier::external_body]
pub struct ExMetaflacTag(metaflac::Tag);

/// The vorbis comment block of a tag: upper-cased key to list of values.
pub uninterp spec fn tag_vorbis(t: metaflac::Tag) -> Map<Seq<char>, Seq<Seq<char>>>;

/// The ASCII upper-casing metaflac applies to vorbis comment keys.
pub open spec fn ascii_upper(s: Seq<char>) -> Seq<char> {
    s.map_values(
        |c: char|
            if 'a' <= c && c <= 'z' {
                ((c as u8) - 32) as char
            } else {
                c
            },
    )
}

/// Relies on metaflac::Tag::set_vorbis: replaces whatever the upper-cased key
/// held with the given one-element value list.
#[verifier::external_body]
pub(crate) fn set_vorbis_one(t: &mut metaflac::Tag, key: &str, value: String)
    ensures
        tag_vorbis(*final(t)) == tag_vorbis(*old(t)).insert(ascii_upper(key@), seq![value@]),
{
    t.set_vorbis(key, vec![value]);
}

/// Relies on metaflac::Tag::get_vorbis: yields the values stored under the
/// upper-cased key; this returns the first of them, when there is one.
#[verifier::external_body]
pub(crate) fn get_vorbis_first(t: &metaflac::Tag, key: &str) -> (r: Option<String>)
    ensures
        match r {
            Some(s) => {
                &&& tag_vorbis(*t).contains_key(ascii_upper(key@))
                &&& tag_vorbis(*t)[ascii_upper(key@)].len() > 0
                &&& s@ == tag_vorbis(*t)[ascii_upper(key@)][0]
            },
            None => !tag_vorbis(*t).contains_key(ascii_upper(key@)) || tag_vorbis(*t)[ascii_upper(
                key@,
            )].len() == 0,
        },
{
    t.get_vorbis(key).and_then(|mut vals| vals.next().map(|v| v.to_string()))
}

} // verus!
