//! The download provider: what to ask it for the address of a track's
//! audio, and how its answer is read.

use crate::error::ResolveError;
use crate::http::{is_success, Header, HeaderView, Reply, ReplyView, Request, RequestView};
use crate::json::{json_document, Json};
use crate::text::concat3;
use vstd::prelude::*;

verus! {

/// The address that answers with the download address of a track.
pub open spec fn resolve_url_of(api_base: Seq<char>, id: Seq<char>) -> Seq<char> {
    api_base + "/url/tx/"@ + id + "/320k"@
}

/// The request that asks for the download address of a track.
pub open spec fn resolve_request_of(api_base: Seq<char>, api_key: Seq<char>, id: Seq<char>)
    -> RequestView {
    RequestView {
        url: resolve_url_of(api_base, id),
        headers: seq![HeaderView { name: "X-Request-Key"@, value: api_key }],
        relaxed_tls: false,
    }
}

/// The request that fetches the audio behind a download address. It is the
/// one request for which the server's certificate may go unchecked, and
/// only where the settings allow it.
pub open spec fn audio_request_of(url: Seq<char>, relaxed_tls: bool) -> RequestView {
    RequestView { url, headers: Seq::empty(), relaxed_tls }
}

/// The download address that a document holds: the text in its field
/// `url`.
pub open spec fn download_url_of(doc: Json) -> Option<Seq<char>> {
    doc.text_field("url"@)
}

/// The download address that the provider's answer holds, or why it holds
/// none.
pub open spec fn download_url_of_reply(reply: ReplyView) -> Result<Seq<char>, ResolveError> {
    match reply {
        ReplyView::Failed => Err(ResolveError::Transport),
        ReplyView::Answered { status, body } => if !is_success(status) {
            Err(ResolveError::Status)
        } else {
            match json_document(body) {
                None => Err(ResolveError::NotJson),
                Some(doc) => match download_url_of(doc) {
                    Some(url) => Ok(url),
                    None => Err(ResolveError::NoUrl),
                },
            }
        },
    }
}

/// The request that asks for the download address of the track `id`.
pub fn resolve_request(api_base: &str, api_key: &str, id: &str) -> (request: Request)
    ensures
        request@ == resolve_request_of(api_base@, api_key@, id@),
{
    let url = concat3(api_base, "/url/tx/", id);
    let url = url.concat("/320k");
    let mut headers: Vec<Header> = Vec::new();
    headers.push(Header::new("X-Request-Key", api_key));
    let request = Request { url, headers, relaxed_tls: false };
    assert(request@.headers == resolve_request_of(api_base@, api_key@, id@).headers);
    request
}

/// The request that fetches the audio behind a download address.
pub fn audio_request(url: &str, relaxed_tls: bool) -> (request: Request)
    ensures
        request@ == audio_request_of(url@, relaxed_tls),
{
    let request = Request { url: String::from_str(url), headers: Vec::new(), relaxed_tls };
    assert(request@.headers == audio_request_of(url@, relaxed_tls).headers);
    request
}

/// Reads the download address from the document that the provider answered
/// with.
pub fn download_url_from_document(doc: &Json) -> (url: Option<String>)
    ensures
        match url {
            Some(url) => download_url_of(*doc) == Some(url@),
            None => download_url_of(*doc) is None,
        },
{
    match doc.member_text("url") {
        Some(url) => Some(String::from_str(url)),
        None => None,
    }
}

/// Reads the download address from what the provider answered to
/// [`resolve_request`].
pub fn download_url(reply: &Reply) -> (url: Result<String, ResolveError>)
    ensures
        match url {
            Ok(url) => download_url_of_reply(reply@) == Ok::<Seq<char>, ResolveError>(url@),
            Err(why) => download_url_of_reply(reply@) == Err::<Seq<char>, ResolveError>(why),
        },
{
    match reply {
        Reply::Failed => Err(ResolveError::Transport),
        Reply::Answered { status, body } => {
            if *status < 200 || *status > 299 {
                return Err(ResolveError::Status);
            }
            match Json::parse(body.as_str()) {
                None => Err(ResolveError::NotJson),
                Some(doc) => match download_url_from_document(&doc) {
                    Some(url) => Ok(url),
                    None => Err(ResolveError::NoUrl),
                },
            }
        },
    }
}

} // verus!
