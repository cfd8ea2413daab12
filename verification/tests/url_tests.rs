// Tests for video-URL cleaning: accepted shapes, truncation of trailing
// text, and rejected inputs.

use toolboot::url::clean_youtube_url;

#[test]
fn full_https_www_watch_url_is_accepted() {
    let r = clean_youtube_url("https://www.youtube.com/watch?v=dQw4w9WgXcQ");
    assert_eq!(r, Some("https://www.youtube.com/watch?v=dQw4w9WgXcQ".to_string()));
}

#[test]
fn short_host_form_is_accepted() {
    let r = clean_youtube_url("https://youtu.be/dQw4w9WgXcQ");
    assert_eq!(r, Some("https://youtu.be/dQw4w9WgXcQ".to_string()));
}

#[test]
fn plain_scheme_is_accepted() {
    let r = clean_youtube_url("http://youtube.com/watch?v=abc");
    assert_eq!(r, Some("http://youtube.com/watch?v=abc".to_string()));
}

#[test]
fn scheme_and_www_are_optional() {
    assert_eq!(
        clean_youtube_url("youtube.com/watch?v=abc"),
        Some("youtube.com/watch?v=abc".to_string())
    );
    assert_eq!(clean_youtube_url("www.youtu.be/abc"), Some("www.youtu.be/abc".to_string()));
}

#[test]
fn trailing_query_parameters_are_dropped() {
    let r = clean_youtube_url("https://www.youtube.com/watch?v=abc_-123&t=42s");
    assert_eq!(r, Some("https://www.youtube.com/watch?v=abc_-123".to_string()));
}

#[test]
fn identifier_keeps_underscore_and_hyphen() {
    let r = clean_youtube_url("youtu.be/a_b-C9");
    assert_eq!(r, Some("youtu.be/a_b-C9".to_string()));
}

#[test]
fn empty_identifier_is_rejected() {
    assert_eq!(clean_youtube_url("https://www.youtube.com/watch?v="), None);
    assert_eq!(clean_youtube_url("https://youtu.be/"), None);
}

#[test]
fn foreign_hosts_are_rejected() {
    assert_eq!(clean_youtube_url("https://vimeo.com/12345"), None);
    assert_eq!(clean_youtube_url("https://example.org/watch?v=abc"), None);
}

#[test]
fn empty_and_junk_inputs_are_rejected() {
    assert_eq!(clean_youtube_url(""), None);
    assert_eq!(clean_youtube_url("https://"), None);
    assert_eq!(clean_youtube_url("watch?v=abc"), None);
    assert_eq!(clean_youtube_url("wwwyoutube.com/watch?v=abc"), None);
}

#[test]
fn host_is_case_sensitive() {
    assert_eq!(clean_youtube_url("https://YouTube.com/watch?v=abc"), None);
}

#[test]
fn cleaning_is_idempotent() {
    let inputs = [
        "https://www.youtube.com/watch?v=abc&t=42s",
        "youtu.be/a_b-C9 and trailing words",
        "http://youtube.com/watch?v=x/y",
    ];
    for input in inputs {
        let once = clean_youtube_url(input).unwrap();
        let twice = clean_youtube_url(&once).unwrap();
        assert_eq!(twice, once);
    }
}

#[test]
fn identifier_stops_at_non_identifier_character() {
    let r = clean_youtube_url("youtube.com/watch?v=abc/def");
    assert_eq!(r, Some("youtube.com/watch?v=abc".to_string()));
}
