//! What can go wrong, for a whole run and for a single track.

use vstd::prelude::*;

verus! {

/// Why no catalogue could be had. Any of these ends the run before it
/// starts.
#[derive(Debug, Clone, Copy, PartialEq, Eq, Structural)]
pub enum CatalogError {
    /// The request failed.
    Transport,
    /// The answer is no JSON.
    NotJson,
    /// The answer lacks the list of tracks, or an entry of it lacks its name
    /// or identifier.
    Malformed,
}

/// Why no download address could be had for a track.
#[derive(Debug, Clone, Copy, PartialEq, Eq, Structural)]
pub enum ResolveError {
    /// The request failed.
    Transport,
    /// The service answered with a status outside 200 to 299.
    Status,
    /// The answer is no JSON.
    NotJson,
    /// The answer has no text in its field `url`.
    NoUrl,
}

/// Why no lyrics could be had for a track. A track is written without
/// lyrics then; it does not fail.
#[derive(Debug, Clone, Copy, PartialEq, Eq, Structural)]
pub enum LyricError {
    /// The request failed.
    Transport,
    /// The answer is no JSON.
    NotJson,
    /// The answer has no text in its field `lyric`.
    NoLyric,
    /// The lyrics are not valid base64.
    NotBase64,
    /// The decoded lyrics are not valid UTF-8.
    NotUtf8,
}

/// Why a track was not written. Each of these concerns one track only.
#[derive(Debug, Clone, Copy, PartialEq, Eq, Structural)]
pub enum Failure {
    /// No download address could be had.
    ResolveFailed(ResolveError),
    /// The audio could not be fetched.
    FetchFailed,
    /// The lyrics are too long for a tag, or the tag could not be read from
    /// the audio or not be written back.
    TagWriteFailed,
    /// The file could not be written.
    PersistFailed,
    /// The work on the track ended without an outcome.
    Abandoned,
}

impl CatalogError {
    /// What [`CatalogError::describe`] says.
    pub open spec fn text(self) -> Seq<char> {
        match self {
            CatalogError::Transport => "catalog unavailable: the request failed"@,
            CatalogError::NotJson => "catalog unavailable: the answer is no JSON"@,
            CatalogError::Malformed =>
                "catalog unavailable: the answer holds no well-formed list of tracks"@,
        }
    }

    /// A sentence for a person to read.
    pub fn describe(&self) -> (said: String)
        ensures
            said@ == self.text(),
    {
        match self {
            CatalogError::Transport => String::from_str("catalog unavailable: the request failed"),
            CatalogError::NotJson => String::from_str("catalog unavailable: the answer is no JSON"),
            CatalogError::Malformed => String::from_str(
                "catalog unavailable: the answer holds no well-formed list of tracks",
            ),
        }
    }
}

impl ResolveError {
    /// What [`ResolveError::describe`] says.
    pub open spec fn text(self) -> Seq<char> {
        match self {
            ResolveError::Transport => "resolve failed: the request failed"@,
            ResolveError::Status => "resolve failed: the service refused"@,
            ResolveError::NotJson => "resolve failed: the answer is no JSON"@,
            ResolveError::NoUrl => "resolve failed: the answer holds no url"@,
        }
    }

    /// A sentence for a person to read.
    pub fn describe(&self) -> (said: String)
        ensures
            said@ == self.text(),
    {
        match self {
            ResolveError::Transport => String::from_str("resolve failed: the request failed"),
            ResolveError::Status => String::from_str("resolve failed: the service refused"),
            ResolveError::NotJson => String::from_str("resolve failed: the answer is no JSON"),
            ResolveError::NoUrl => String::from_str("resolve failed: the answer holds no url"),
        }
    }
}

impl LyricError {
    /// What [`LyricError::describe`] says.
    pub open spec fn text(self) -> Seq<char> {
        match self {
            LyricError::Transport => "lyric unavailable: the request failed"@,
            LyricError::NotJson => "lyric unavailable: the answer is no JSON"@,
            LyricError::NoLyric => "lyric unavailable: the answer holds no lyric"@,
            LyricError::NotBase64 => "lyric unavailable: the lyric is no base64"@,
            LyricError::NotUtf8 => "lyric unavailable: the lyric is no UTF-8"@,
        }
    }

    /// A sentence for a person to read.
    pub fn describe(&self) -> (said: String)
        ensures
            said@ == self.text(),
    {
        match self {
            LyricError::Transport => String::from_str("lyric unavailable: the request failed"),
            LyricError::NotJson => String::from_str("lyric unavailable: the answer is no JSON"),
            LyricError::NoLyric => String::from_str("lyric unavailable: the answer holds no lyric"),
            LyricError::NotBase64 => String::from_str("lyric unavailable: the lyric is no base64"),
            LyricError::NotUtf8 => String::from_str("lyric unavailable: the lyric is no UTF-8"),
        }
    }
}

impl Failure {
    /// What [`Failure::describe`] says.
    pub open spec fn text(self) -> Seq<char> {
        match self {
            Failure::ResolveFailed(why) => why.text(),
            Failure::FetchFailed => "fetch failed"@,
            Failure::TagWriteFailed => "tag write failed"@,
            Failure::PersistFailed => "persist failed"@,
            Failure::Abandoned => "abandoned"@,
        }
    }

    /// A sentence for a person to read.
    pub fn describe(&self) -> (said: String)
        ensures
            said@ == self.text(),
    {
        match self {
            Failure::ResolveFailed(why) => why.describe(),
            Failure::FetchFailed => String::from_str("fetch failed"),
            Failure::TagWriteFailed => String::from_str("tag write failed"),
            Failure::PersistFailed => String::from_str("persist failed"),
            Failure::Abandoned => String::from_str("abandoned"),
        }
    }
}

} // verus!
