use playlist_mirror::error::ResolveError;
use playlist_mirror::http::{Header, Reply, Request};
use playlist_mirror::json::Json;
use playlist_mirror::resolve::{
    audio_request, download_url, download_url_from_document, resolve_request,
};

fn answered(status: u16, body: &str) -> Reply {
    Reply::Answered { status, body: body.to_string() }
}

#[test]
fn resolve_request_names_track_and_key() {
    assert_eq!(
        resolve_request("http://localhost:9763", "SECRET-REDACTED", "id3"),
        Request {
            url: "http://localhost:9763/url/tx/id3/320k".to_string(),
            headers: vec![Header {
                name: "X-Request-Key".to_string(),
                value: "SECRET-REDACTED".to_string(),
            }],
            relaxed_tls: false,
        }
    );
}

#[test]
fn audio_request_relaxes_tls_where_allowed() {
    assert_eq!(
        audio_request("https://cdn.example/a.mp3", true),
        Request {
            url: "https://cdn.example/a.mp3".to_string(),
            headers: Vec::new(),
            relaxed_tls: true,
        }
    );
}

#[test]
fn audio_request_checks_certificates_otherwise() {
    assert_eq!(
        audio_request("https://cdn.example/a.mp3", false),
        Request {
            url: "https://cdn.example/a.mp3".to_string(),
            headers: Vec::new(),
            relaxed_tls: false,
        }
    );
}

#[test]
fn download_url_is_read_from_the_answer() {
    assert_eq!(
        download_url(&answered(200, r#"{"code":0,"url":"https://cdn.example/a.mp3"}"#)),
        Ok("https://cdn.example/a.mp3".to_string())
    );
    assert_eq!(download_url(&answered(299, r#"{"url":""}"#)), Ok(String::new()));
}

#[test]
fn download_url_null_is_a_failed_resolve() {
    assert_eq!(download_url(&answered(200, r#"{"url": null}"#)), Err(ResolveError::NoUrl));
}

#[test]
fn download_url_missing_or_no_text_is_a_failed_resolve() {
    assert_eq!(download_url(&answered(200, r#"{}"#)), Err(ResolveError::NoUrl));
    assert_eq!(download_url(&answered(200, r#"{"url": 5}"#)), Err(ResolveError::NoUrl));
    assert_eq!(download_url(&answered(200, r#"["url"]"#)), Err(ResolveError::NoUrl));
}

#[test]
fn download_url_refuses_a_bad_status() {
    let body = r#"{"url":"https://cdn.example/a.mp3"}"#;
    for status in [0, 100, 199, 300, 404, 500, 503, u16::MAX] {
        assert_eq!(download_url(&answered(status, body)), Err(ResolveError::Status));
    }
    assert_eq!(download_url(&answered(500, "not json")), Err(ResolveError::Status));
}

#[test]
fn download_url_from_no_json_is_a_failed_resolve() {
    assert_eq!(download_url(&answered(200, "Bad Gateway")), Err(ResolveError::NotJson));
}

#[test]
fn download_url_without_answer_is_a_failed_resolve() {
    assert_eq!(download_url(&Reply::Failed), Err(ResolveError::Transport));
}

#[test]
fn download_url_from_document_reads_the_field() {
    let doc = Json::Object(vec![("url".to_string(), Json::Text("u".to_string()))]);
    assert_eq!(download_url_from_document(&doc), Some("u".to_string()));
    assert_eq!(download_url_from_document(&Json::Object(Vec::new())), None);
    assert_eq!(
        download_url_from_document(&Json::Object(vec![("url".to_string(), Json::Null)])),
        None
    );
}
