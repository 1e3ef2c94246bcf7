//! The playlist provider: what to ask it for a playlist and for the lyrics
//! of a track, and how its answers are read.

use crate::error::{CatalogError, LyricError};
use crate::http::{Header, HeaderView, Reply, ReplyView, Request, RequestView};
use crate::json::{json_document, Json};
use crate::song::{Song, SongView};
use crate::text::{concat3, decimal, decimal_string};
use vstd::prelude::*;
use vstd::utf8::{decode_utf8, valid_utf8};

verus! {

/// The tracks of a playlist, in the order in which the provider lists them.
#[derive(Debug, PartialEq, Eq)]
pub struct TXPlayList {
    pub id: i64,
    pub song_list: Vec<Song>,
}

/// The track that an entry of the provider's list describes: its `name` and
/// its `mid`, both texts. `None` where either is missing or no text.
pub open spec fn song_of(entry: Json) -> Option<SongView> {
    match (entry.text_field("name"@), entry.text_field("mid"@)) {
        (Some(name), Some(id)) => Some(SongView { name, id }),
        _ => None,
    }
}

/// The entries of the provider's list of tracks: the array `songlist` in
/// the first item of the array `cdlist`.
pub open spec fn song_entries(doc: Json) -> Option<Seq<Json>> {
    match doc.field("cdlist"@) {
        Some(lists) => match lists.items() {
            Some(items) => if items.len() > 0 {
                match items[0].field("songlist"@) {
                    Some(songs) => songs.items(),
                    None => None,
                }
            } else {
                None
            },
            None => None,
        },
        None => None,
    }
}

/// The catalogue that a document holds: one track for each entry of its
/// list, in order. `None` where the list is missing or an entry is no track.
pub open spec fn catalog_of(doc: Json) -> Option<Seq<SongView>> {
    match song_entries(doc) {
        Some(entries) => if forall|i: int| 0 <= i < entries.len() ==> song_of(#[trigger] entries[i])
            is Some {
            Some(entries.map_values(|entry: Json| song_of(entry).unwrap()))
        } else {
            None
        },
        None => None,
    }
}

/// The catalogue that the provider's answer holds, or why it holds none.
/// The status of the answer is not looked at.
pub open spec fn catalog_of_reply(reply: ReplyView) -> Result<Seq<SongView>, CatalogError> {
    match reply {
        ReplyView::Failed => Err(CatalogError::Transport),
        ReplyView::Answered { status, body } => match json_document(body) {
            None => Err(CatalogError::NotJson),
            Some(doc) => match catalog_of(doc) {
                None => Err(CatalogError::Malformed),
                Some(catalog) => Ok(catalog),
            },
        },
    }
}

/// The page that a playlist is said to be asked from.
pub open spec fn referer_of(id: int) -> Seq<char> {
    "https://y.qq.com/n/yqq/playsquare/"@ + decimal(id) + ".html"@
}

/// The address that answers with a playlist.
pub open spec fn api_url_of(id: int) -> Seq<char> {
    "https://c.y.qq.com/qzone/fcg-bin/fcg_ucc_getcdinfo_byids_cp.fcg?type=1&json=1&utf8=1&onlysong=0&new_format=1&disstid="@
        + decimal(id)
        + "&loginUin=0&hostUin=0&format=json&inCharset=utf8&outCharset=utf-8&notice=0&platform=yqq.json&needNewCode=0"@
}

/// The request that asks for a playlist.
pub open spec fn catalog_request_of(id: int) -> RequestView {
    RequestView {
        url: api_url_of(id),
        headers: seq![
            HeaderView { name: "Referer"@, value: referer_of(id) },
            HeaderView { name: "Origin"@, value: "https://y.qq.com"@ },
        ],
        relaxed_tls: false,
    }
}

impl TXPlayList {
    /// Reads the playlist `id` from what the provider answered to
    /// [`TXPlayList::request`].
    pub fn new(id: i64, reply: &Reply) -> (list: Result<TXPlayList, CatalogError>)
        ensures
            match list {
                Ok(list) => list.id == id && catalog_of_reply(reply@) == Ok::<
                    Seq<SongView>,
                    CatalogError,
                >(list.song_list.deep_view()),
                Err(why) => catalog_of_reply(reply@) == Err::<Seq<SongView>, CatalogError>(why),
            },
    {
        match reply {
            Reply::Failed => Err(CatalogError::Transport),
            Reply::Answered { status, body } => match Json::parse(body.as_str()) {
                None => Err(CatalogError::NotJson),
                Some(doc) => match TXPlayList::from_document(id, &doc) {
                    Some(list) => Ok(list),
                    None => Err(CatalogError::Malformed),
                },
            },
        }
    }

    /// Reads the playlist `id` from the document that the provider answered
    /// with. `None` where the document holds no well-formed list of tracks.
    pub fn from_document(id: i64, doc: &Json) -> (list: Option<TXPlayList>)
        ensures
            match list {
                Some(list) => list.id == id && catalog_of(*doc) == Some(
                    list.song_list.deep_view(),
                ),
                None => catalog_of(*doc) is None,
            },
    {
        let lists = match doc.member("cdlist") {
            Some(lists) => lists,
            None => return None,
        };
        let items = match lists.as_array() {
            Some(items) => items,
            None => return None,
        };
        if items.len() == 0 {
            return None;
        }
        let songs = match items[0].member("songlist") {
            Some(songs) => songs,
            None => return None,
        };
        let entries = match songs.as_array() {
            Some(entries) => entries,
            None => return None,
        };
        let mut song_list: Vec<Song> = Vec::new();
        let mut i: usize = 0;
        while i < entries.len()
            invariant
                i <= entries.len(),
                song_entries(*doc) == Some(entries@),
                song_list.len() == i,
                forall|j: int| 0 <= j < i ==> song_of(#[trigger] entries@[j]) is Some,
                forall|j: int|
                    0 <= j < i ==> #[trigger] song_list.deep_view()[j] == song_of(
                        entries@[j],
                    ).unwrap(),
            decreases entries.len() - i,
        {
            let entry = &entries[i];
            let name = match entry.member_text("name") {
                Some(name) => name,
                None => return None,
            };
            let mid = match entry.member_text("mid") {
                Some(mid) => mid,
                None => return None,
            };
            let ghost before = song_list.deep_view();
            let song = Song::new(String::from_str(name), String::from_str(mid));
            song_list.push(song);
            assert(song_list.deep_view() == before.push(song@));
            i += 1;
        }
        Some(TXPlayList { id, song_list })
    }

    /// The page that the playlist is said to be asked from.
    pub fn get_referer(id: i64) -> (referer: String)
        ensures
            referer@ == referer_of(id as int),
    {
        let number = decimal_string(id);
        concat3("https://y.qq.com/n/yqq/playsquare/", number.as_str(), ".html")
    }

    /// The site that the playlist is said to be asked from.
    pub fn get_origin() -> (origin: &'static str)
        ensures
            origin@ == "https://y.qq.com"@,
    {
        "https://y.qq.com"
    }

    /// The address that answers with the playlist.
    pub fn get_api_url(id: i64) -> (url: String)
        ensures
            url@ == api_url_of(id as int),
    {
        let number = decimal_string(id);
        concat3(
            "https://c.y.qq.com/qzone/fcg-bin/fcg_ucc_getcdinfo_byids_cp.fcg?type=1&json=1&utf8=1&onlysong=0&new_format=1&disstid=",
            number.as_str(),
            "&loginUin=0&hostUin=0&format=json&inCharset=utf8&outCharset=utf-8&notice=0&platform=yqq.json&needNewCode=0",
        )
    }

    /// The request that asks for the playlist.
    pub fn request(id: i64) -> (request: Request)
        ensures
            request@ == catalog_request_of(id as int),
    {
        let mut headers: Vec<Header> = Vec::new();
        let referer = TXPlayList::get_referer(id);
        headers.push(Header::new("Referer", referer.as_str()));
        headers.push(Header::new("Origin", TXPlayList::get_origin()));
        let request = Request { url: TXPlayList::get_api_url(id), headers, relaxed_tls: false };
        assert(request@.headers == catalog_request_of(id as int).headers);
        request
    }
}

#[verifier::external_type_specification]
#[verifier::external_body]
pub struct ExDecodeError(base64::DecodeError);

/// The bytes that the standard base64 alphabet, with padding, decodes a text
/// to, or `None` where the text is no such base64.
pub uninterp spec fn base64_decoded(text: Seq<char>) -> Option<Seq<u8>>;

/// Decodes base64.
///
/// Calls `decode` of `base64::prelude::BASE64_STANDARD` on the bytes of the
/// text. What it gives is a function of the text alone.
#[verifier::external_body]
fn base64_decode(text: &str) -> (decoded: Result<Vec<u8>, base64::DecodeError>)
    ensures
        match decoded {
            Ok(bytes) => base64_decoded(text@) == Some(bytes@),
            Err(_) => base64_decoded(text@) is None,
        },
{
    base64::Engine::decode(&base64::prelude::BASE64_STANDARD, text.as_bytes())
}

/// Turns bytes into the text they encode.
///
/// Calls `String::from_utf8`: it gives the text that the bytes encode where
/// they are valid UTF-8, and nothing where they are not.
#[verifier::external_body]
fn text_of_utf8(bytes: Vec<u8>) -> (text: Option<String>)
    ensures
        match text {
            Some(s) => valid_utf8(bytes@) && s@ == decode_utf8(bytes@),
            None => !valid_utf8(bytes@),
        },
{
    match String::from_utf8(bytes) {
        Ok(text) => Some(text),
        Err(_) => None,
    }
}

/// The lyrics that decoded bytes hold.
pub open spec fn lyric_of_bytes(bytes: Seq<u8>) -> Result<Seq<char>, LyricError> {
    if valid_utf8(bytes) {
        Ok(decode_utf8(bytes))
    } else {
        Err(LyricError::NotUtf8)
    }
}

/// The lyrics that a base64 text holds.
pub open spec fn lyric_of_encoded(encoded: Seq<char>) -> Result<Seq<char>, LyricError> {
    match base64_decoded(encoded) {
        Some(bytes) => lyric_of_bytes(bytes),
        None => Err(LyricError::NotBase64),
    }
}

/// The lyrics that a document holds: the text in its field `lyric`,
/// decoded.
pub open spec fn lyric_of(doc: Json) -> Result<Seq<char>, LyricError> {
    match doc.text_field("lyric"@) {
        Some(encoded) => lyric_of_encoded(encoded),
        None => Err(LyricError::NoLyric),
    }
}

/// The lyrics that the provider's answer holds, or why it holds none. The
/// status of the answer is not looked at.
pub open spec fn lyric_of_reply(reply: ReplyView) -> Result<Seq<char>, LyricError> {
    match reply {
        ReplyView::Failed => Err(LyricError::Transport),
        ReplyView::Answered { status, body } => match json_document(body) {
            Some(doc) => lyric_of(doc),
            None => Err(LyricError::NotJson),
        },
    }
}

/// The address that answers with the lyrics of a track.
pub open spec fn lyric_url_of(id: Seq<char>) -> Seq<char> {
    "https://c.y.qq.com/lyric/fcgi-bin/fcg_query_lyric_new.fcg?songmid="@ + id
        + "&g_tk=5381&loginUin=0&hostUin=0&format=json&inCharset=utf8&outCharset=utf-8&platform=yqq"@
}

/// The request that asks for the lyrics of a track.
pub open spec fn lyric_request_of(id: Seq<char>) -> RequestView {
    RequestView {
        url: lyric_url_of(id),
        headers: seq![HeaderView { name: "Referer"@, value: "https://y.qq.com/portal/player.html"@ }],
        relaxed_tls: false,
    }
}

/// Reads lyrics from the bytes that their base64 form decodes to.
pub fn lyric_from_bytes(bytes: Vec<u8>) -> (lyric: Result<String, LyricError>)
    ensures
        match lyric {
            Ok(text) => lyric_of_bytes(bytes@) == Ok::<Seq<char>, LyricError>(text@),
            Err(why) => lyric_of_bytes(bytes@) == Err::<Seq<char>, LyricError>(why),
        },
{
    match text_of_utf8(bytes) {
        Some(text) => Ok(text),
        None => Err(LyricError::NotUtf8),
    }
}

/// Reads lyrics from their base64 form.
pub fn decode_lyric(encoded: &str) -> (lyric: Result<String, LyricError>)
    ensures
        match lyric {
            Ok(text) => lyric_of_encoded(encoded@) == Ok::<Seq<char>, LyricError>(text@),
            Err(why) => lyric_of_encoded(encoded@) == Err::<Seq<char>, LyricError>(why),
        },
{
    match base64_decode(encoded) {
        Ok(bytes) => lyric_from_bytes(bytes),
        Err(_) => Err(LyricError::NotBase64),
    }
}

/// Reads lyrics from the document that the provider answered with.
pub fn lyric_from_document(doc: &Json) -> (lyric: Result<String, LyricError>)
    ensures
        match lyric {
            Ok(text) => lyric_of(*doc) == Ok::<Seq<char>, LyricError>(text@),
            Err(why) => lyric_of(*doc) == Err::<Seq<char>, LyricError>(why),
        },
{
    match doc.member_text("lyric") {
        Some(encoded) => decode_lyric(encoded),
        None => Err(LyricError::NoLyric),
    }
}

/// What the provider offers for a single track.
pub trait TXLyric {
    /// The request that asks for the lyrics of this track.
    fn lyric_request(&self) -> Request;

    /// Reads the lyrics from what the provider answered to
    /// [`TXLyric::lyric_request`].
    fn get_lyric(&self, reply: &Reply) -> Result<String, LyricError>;
}

impl TXLyric for Song {
    fn lyric_request(&self) -> (request: Request)
        ensures
            request@ == lyric_request_of(self.id@),
    {
        let url = concat3(
            "https://c.y.qq.com/lyric/fcgi-bin/fcg_query_lyric_new.fcg?songmid=",
            self.id.as_str(),
            "&g_tk=5381&loginUin=0&hostUin=0&format=json&inCharset=utf8&outCharset=utf-8&platform=yqq",
        );
        let mut headers: Vec<Header> = Vec::new();
        headers.push(Header::new("Referer", "https://y.qq.com/portal/player.html"));
        let request = Request { url, headers, relaxed_tls: false };
        assert(request@.headers == lyric_request_of(self.id@).headers);
        request
    }

    fn get_lyric(&self, reply: &Reply) -> (lyric: Result<String, LyricError>)
        ensures
            match lyric {
                Ok(text) => lyric_of_reply(reply@) == Ok::<Seq<char>, LyricError>(text@),
                Err(why) => lyric_of_reply(reply@) == Err::<Seq<char>, LyricError>(why),
            },
    {
        match reply {
            Reply::Failed => Err(LyricError::Transport),
            Reply::Answered { status, body } => match Json::parse(body.as_str()) {
                Some(doc) => lyric_from_document(&doc),
                None => Err(LyricError::NotJson),
            },
        }
    }
}

} // verus!
