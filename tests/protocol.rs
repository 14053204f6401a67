use stream_king::player::{
    check_mpv_available, handle_deep_links, handle_protocol_url, is_tauri_app, play_video,
    start_option, stop_video,
};
use stream_king::protocol::{parse_protocol_url, parse_seconds, PlayParams, Seconds};

fn seconds_value(s: &Seconds) -> f64 {
    s.to_text().parse::<f64>().unwrap()
}

#[test]
fn test_parse_protocol_url() {
    let url = "streamking://play?url=https%3A%2F%2Fexample.com%2Fvideo.mp4&title=Test%20Video";
    let params = parse_protocol_url(url).unwrap();
    assert_eq!(params.url, "https://example.com/video.mp4");
    assert_eq!(params.title, "Test Video");
    assert_eq!(params.start_position, None);
}

#[test]
fn test_parse_protocol_url_with_position() {
    let url = "streamking://play?url=https%3A%2F%2Fexample.com%2Fvideo.mp4&title=Test&position=120.5";
    let params = parse_protocol_url(url).unwrap();
    assert_eq!(params.start_position.as_ref().map(seconds_value), Some(120.5));
    assert_eq!(
        params.start_position,
        Some(Seconds { whole: "120".to_string(), fraction: "5".to_string() })
    );
}

#[test]
fn not_a_url_is_rejected() {
    assert_eq!(parse_protocol_url("not-a-url"), None);
    assert_eq!(handle_protocol_url("not-a-url").unwrap_err(), "Invalid protocol URL");
}

#[test]
fn other_schemes_are_rejected() {
    assert_eq!(parse_protocol_url("https://play?url=x"), None);
    assert_eq!(parse_protocol_url("streamkings://play?url=x"), None);
    assert_eq!(parse_protocol_url(""), None);
}

#[test]
fn other_actions_are_rejected() {
    assert_eq!(parse_protocol_url("streamking://pause?url=x"), None);
    assert_eq!(parse_protocol_url("streamking:stop?url=x"), None);
}

#[test]
fn both_shapes_agree() {
    let a = parse_protocol_url("streamking://play?url=a%20b&title=T&position=3");
    let b = parse_protocol_url("streamking:play?url=a%20b&title=T&position=3");
    assert!(a.is_some());
    assert_eq!(a, b);
    let a = a.unwrap();
    assert_eq!(a.url, "a b");
    assert_eq!(a.start_position.as_ref().map(seconds_value), Some(3.0));
}

#[test]
fn missing_title_gives_default() {
    let p = parse_protocol_url("streamking://play?url=http%3A%2F%2Fh%2Fv").unwrap();
    assert_eq!(p.url, "http://h/v");
    assert_eq!(p.title, "Stream King");
    assert_eq!(p.start_position, None);
}

#[test]
fn missing_or_empty_url_is_rejected() {
    assert_eq!(parse_protocol_url("streamking://play?title=T&position=5"), None);
    assert_eq!(parse_protocol_url("streamking://play"), None);
    assert_eq!(parse_protocol_url("streamking://play?url=&title=T"), None);
}

#[test]
fn bad_position_is_ignored() {
    let p = parse_protocol_url("streamking://play?url=v&position=abc").unwrap();
    assert_eq!(p.url, "v");
    assert_eq!(p.start_position, None);
    let p = parse_protocol_url("streamking://play?url=v&position=1.2.3").unwrap();
    assert_eq!(p.start_position, None);
}

#[test]
fn last_value_wins() {
    let p = parse_protocol_url("streamking://play?url=first&url=second&title=a&title=b").unwrap();
    assert_eq!(p.url, "second");
    assert_eq!(p.title, "b");
}

#[test]
fn seconds_forms() {
    let s = parse_seconds("42").unwrap();
    assert_eq!(s, Seconds { whole: "42".to_string(), fraction: String::new() });
    assert_eq!(seconds_value(&s), 42.0);
    let s = parse_seconds(".25").unwrap();
    assert_eq!(seconds_value(&s), 0.25);
    let s = parse_seconds("7.").unwrap();
    assert_eq!(s.to_text(), "7");
    assert_eq!(parse_seconds(""), None);
    assert_eq!(parse_seconds("."), None);
    assert_eq!(parse_seconds("-1"), None);
    assert_eq!(parse_seconds("1e3"), None);
}

#[test]
fn play_command_reports_disabled() {
    let params = PlayParams { url: "u".to_string(), title: "t".to_string(), start_position: None };
    let r = play_video(params);
    assert!(!r.success);
    assert_eq!(r.error.as_deref(), Some("Native playback disabled. Please use frontend player."));
}

#[test]
fn stop_and_probes() {
    let r = stop_video();
    assert!(r.success);
    assert!(r.error.is_none());
    assert!(!check_mpv_available());
    assert!(is_tauri_app());
}

#[test]
fn start_option_is_relative_seek() {
    let s = Seconds { whole: "120".to_string(), fraction: "5".to_string() };
    assert_eq!(start_option(&s), "+120.5");
}

#[test]
fn batch_handles_each_link() {
    let urls = vec![
        "not-a-url".to_string(),
        "streamking://play?url=v1".to_string(),
        "streamking:play?url=v2&title=Two".to_string(),
    ];
    let r = handle_deep_links(&urls);
    assert_eq!(r.len(), 3);
    assert_eq!(r[0].as_ref().unwrap_err(), "Invalid protocol URL");
    assert_eq!(r[1].as_ref().unwrap().url, "v1");
    assert_eq!(r[2].as_ref().unwrap().title, "Two");
}
