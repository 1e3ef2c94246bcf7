//! Putting lyrics into the metadata tag of downloaded audio.
//!
//! The tag is changed here. Reading it from the audio and writing it back
//! are left to the caller: the decoder of `id3` nests without bound on
//! chapter frames within chapter frames, and its encoder stops the thread on
//! a tag of 256 MiB or more.

use vstd::prelude::*;
use vstd::utf8::encode_utf8;

verus! {

#[verifier::external_type_specification]
#[verifier::external_body]
pub struct ExTag(id3::Tag);

#[verifier::external_type_specification]
#[verifier::external_body]
pub struct ExFrame(id3::Frame);

/// The lyrics of a tag: its frames with the identifier `USLT` that hold
/// lyrics, in the order of the tag, each as language, description and
/// text.
pub uninterp spec fn tag_lyrics(tag: id3::Tag) -> Seq<(Seq<char>, Seq<char>, Seq<char>)>;

/// The frames of a tag whose identifier is not `USLT`, in the order of the
/// tag.
pub uninterp spec fn tag_others(tag: id3::Tag) -> Seq<id3::Frame>;

/// The tag that `remove_all_lyrics` leaves of a tag.
pub uninterp spec fn without_lyrics(tag: id3::Tag) -> id3::Tag;

/// The tag that `add_frame` makes of a tag when it is given a lyrics frame
/// with this language, description and text.
pub uninterp spec fn with_lyrics(
    tag: id3::Tag,
    language: Seq<char>,
    description: Seq<char>,
    text: Seq<char>,
) -> id3::Tag;

/// Takes the lyrics out of a tag.
///
/// Calls `remove_all_lyrics` of `id3::TagLike`, which removes every frame
/// with the identifier `USLT` and keeps the others as they are, in their
/// order: afterwards the tag has no lyrics.
#[verifier::external_body]
fn remove_lyrics(tag: &mut id3::Tag)
    ensures
        *final(tag) == without_lyrics(*old(tag)),
        tag_lyrics(*final(tag)).len() == 0,
        tag_others(*final(tag)) == tag_others(*old(tag)),
{
    id3::TagLike::remove_all_lyrics(tag);
}

/// Adds lyrics to a tag.
///
/// Calls `add_frame` of `id3::TagLike` with an `id3::frame::Lyrics`, which
/// becomes a frame with the identifier `USLT`. It appends the frame, after
/// removing an earlier lyrics frame with the same language and description;
/// frames of another identifier stay as they are, in their order. On a tag
/// without lyrics, these are then its only lyrics.
#[verifier::external_body]
fn add_lyrics(tag: &mut id3::Tag, language: &str, description: &str, text: &str)
    ensures
        *final(tag) == with_lyrics(*old(tag), language@, description@, text@),
        tag_lyrics(*old(tag)).len() == 0 ==> tag_lyrics(*final(tag)) == seq![
            (language@, description@, text@),
        ],
        tag_others(*final(tag)) == tag_others(*old(tag)),
{
    id3::TagLike::add_frame(
        tag,
        id3::frame::Lyrics {
            lang: language.to_string(),
            description: description.to_string(),
            text: text.to_string(),
        },
    );
}

/// The most bytes that lyrics may have: a frame of an ID3v2.4 tag holds
/// less than 2^28 bytes, of which the lyrics frame spends eleven on its
/// text encoding, its language and its description.
pub const MAX_LYRIC_BYTES: usize = 0x0FFF_FFF4;

/// Whether lyrics are short enough for a frame.
pub open spec fn lyric_fits(lyric: Seq<char>) -> bool {
    encode_utf8(lyric).len() <= MAX_LYRIC_BYTES
}

/// The tag that is written for a track: the tag it had, with all its
/// lyrics replaced by one lyrics frame in the language `unknown`, described
/// as `lyrics`.
pub open spec fn lyrics_tag(tag: id3::Tag, lyric: Seq<char>) -> id3::Tag {
    with_lyrics(without_lyrics(tag), "unknown"@, "lyrics"@, lyric)
}

/// Tests whether lyrics are short enough for a frame.
pub fn lyric_is_short(lyric: &str) -> (short: bool)
    ensures
        short == lyric_fits(lyric@),
{
    lyric.as_bytes().len() <= MAX_LYRIC_BYTES
}

/// Replaces the lyrics of a tag: the lyrics it has are removed and `lyric`
/// is added as its only lyrics. Its other frames stay as they are.
pub fn set_lyrics(tag: id3::Tag, lyric: &str) -> (out: id3::Tag)
    ensures
        out == lyrics_tag(tag, lyric@),
        tag_lyrics(out) == seq![("unknown"@, "lyrics"@, lyric@)],
        tag_others(out) == tag_others(tag),
{
    let mut tag = tag;
    remove_lyrics(&mut tag);
    add_lyrics(&mut tag, "unknown", "lyrics", lyric);
    tag
}

} // verus!
