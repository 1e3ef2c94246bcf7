use playlist_mirror::error::{CatalogError, Failure, LyricError, ResolveError};

#[test]
fn catalog_error_describes_itself() {
    assert_eq!(CatalogError::Transport.describe(), "catalog unavailable: the request failed");
    assert_eq!(CatalogError::NotJson.describe(), "catalog unavailable: the answer is no JSON");
    assert_eq!(
        CatalogError::Malformed.describe(),
        "catalog unavailable: the answer holds no well-formed list of tracks"
    );
}

#[test]
fn resolve_error_describes_itself() {
    assert_eq!(ResolveError::Transport.describe(), "resolve failed: the request failed");
    assert_eq!(ResolveError::Status.describe(), "resolve failed: the service refused");
    assert_eq!(ResolveError::NotJson.describe(), "resolve failed: the answer is no JSON");
    assert_eq!(ResolveError::NoUrl.describe(), "resolve failed: the answer holds no url");
}

#[test]
fn lyric_error_describes_itself() {
    assert_eq!(LyricError::Transport.describe(), "lyric unavailable: the request failed");
    assert_eq!(LyricError::NotJson.describe(), "lyric unavailable: the answer is no JSON");
    assert_eq!(LyricError::NoLyric.describe(), "lyric unavailable: the answer holds no lyric");
    assert_eq!(LyricError::NotBase64.describe(), "lyric unavailable: the lyric is no base64");
    assert_eq!(LyricError::NotUtf8.describe(), "lyric unavailable: the lyric is no UTF-8");
}

#[test]
fn failure_describes_itself() {
    assert_eq!(
        Failure::ResolveFailed(ResolveError::NoUrl).describe(),
        "resolve failed: the answer holds no url"
    );
    assert_eq!(Failure::FetchFailed.describe(), "fetch failed");
    assert_eq!(Failure::TagWriteFailed.describe(), "tag write failed");
    assert_eq!(Failure::PersistFailed.describe(), "persist failed");
    assert_eq!(Failure::Abandoned.describe(), "abandoned");
}
