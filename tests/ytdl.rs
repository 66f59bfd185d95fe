use swc::ytdl::{output_is_playlist, Playlist, QueryError, Track, YtdlError, YtdlPlaylist, YtdlQuery, YtdlThumbnail};

fn query(id: &str, uploader: Option<&str>) -> YtdlQuery {
    YtdlQuery {
        id: String::from(id),
        webpage_url: None,
        title: format!("title {}", id),
        uploader: uploader.map(String::from),
        uploader_url: None,
        thumbnail: None,
        thumbnails: None,
    }
}

#[test]
fn playlist_output_is_recognised() {
    assert!(output_is_playlist(r#"{"_type":"playlist","entries":[]}"#));
    assert!(output_is_playlist(r#"{"id":"x", "_type": "playlist" }"#));
    assert!(!output_is_playlist(r#"{"_type":"video","id":"x"}"#));
    assert!(!output_is_playlist(r#"{"id":"x"}"#));
    assert!(!output_is_playlist(r#"{"_type":"playlist""#));
}

#[test]
fn track_url_falls_back_to_watch_page() {
    let t = Track::from_query(query("abc", Some("me"))).ok().unwrap();
    assert_eq!(t.url, "https://www.youtube.com/watch?v=abc");
    assert_eq!(t.author_name(), "me");
    assert_eq!(t.title(), "title abc");
    assert!(t.thumbnail_url().is_none());
    let mut q = query("abc", Some("me"));
    q.webpage_url = Some(String::from("https://example.com/v"));
    assert_eq!(Track::from_query(q).ok().unwrap().url(), "https://example.com/v");
}

#[test]
fn track_without_uploader_is_private() {
    assert!(matches!(Track::from_query(query("x", None)), Err(QueryError::PrivateVideo)));
}

#[test]
fn track_takes_largest_thumbnail() {
    let mut q = query("x", Some("u"));
    q.thumbnails = Some(vec![
        YtdlThumbnail { url: String::from("small"), height: 90, width: 120 },
        YtdlThumbnail { url: String::from("big"), height: 720, width: 1280 },
        YtdlThumbnail { url: String::from("mid"), height: 360, width: 480 },
    ]);
    assert_eq!(Track::from_query(q).ok().unwrap().thumbnail_url(), Some("big"));
    let mut q = query("x", Some("u"));
    q.thumbnail = Some(String::from("own"));
    q.thumbnails = Some(vec![YtdlThumbnail { url: String::from("big"), height: 720, width: 1280 }]);
    assert_eq!(Track::from_query(q).ok().unwrap().thumbnail_url(), Some("own"));
}

#[test]
fn playlist_skips_private_entries() {
    let p = Playlist::from_ytdl(YtdlPlaylist {
        title: String::from("list"),
        uploader: String::from("me"),
        uploader_url: Some(String::from("https://example.com/me")),
        webpage_url: String::from("https://example.com/list"),
        thumbnail: None,
        entries: vec![query("a", Some("x")), query("b", None), query("c", Some("y"))],
    });
    assert_eq!(p.entries().len(), 2);
    assert_eq!(p.entries()[0].title, "title a");
    assert_eq!(p.entries()[1].title, "title c");
    assert_eq!(p.title(), "list");
    assert_eq!(p.url(), "https://example.com/list");
    assert_eq!(p.author_url(), Some("https://example.com/me"));
    assert!(p.thumbnail().is_none());
    assert_eq!(p.into_entries().len(), 2);
}

#[test]
fn error_lines_carry_trimmed_message() {
    let e = YtdlError::from_line("ERROR:  video unavailable  ").unwrap();
    assert_eq!(e.message(), "video unavailable");
    assert!(YtdlError::from_line("WARNING: slow").is_none());
    assert!(YtdlError::from_line("ERR").is_none());
    assert_eq!(YtdlError::new(String::from("m")).message(), "m");
}

#[test]
fn playlist_output_trims_unicode_whitespace() {
    assert!(output_is_playlist("{\"_type\":\u{a0}\"playlist\"\u{2003},\"id\":\"x\"}"));
}
