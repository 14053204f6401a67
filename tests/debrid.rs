use stream_king::debrid::{
    add_magnet_request, check_reply, instant_availability_request, select_files_request,
    select_files_result, torrent_info_request, unrestrict_link_request, user_request, validation_result, with_message,
    HttpMethod, RDUser, RdError,
};
use stream_king::reply::{fetch_url_result, status_line, HttpReply};
use stream_king::text::decimal_text;

fn answered(status: u16, phrase: Option<&str>, body: &str) -> HttpReply {
    HttpReply::Answered { status, phrase: phrase.map(|p| p.to_string()), body: body.to_string() }
}

fn user() -> RDUser {
    RDUser {
        id: 7,
        username: "u".to_string(),
        email: "e@x".to_string(),
        points: 10,
        locale: "en".to_string(),
        avatar: "a".to_string(),
        account_type: "premium".to_string(),
        premium: 100,
        expiration: "2030".to_string(),
    }
}

#[test]
fn requests_carry_bearer_and_endpoint() {
    let r = user_request("tok");
    assert_eq!(r.method, HttpMethod::Get);
    assert_eq!(r.url, "https://api.real-debrid.com/rest/1.0/user");
    assert_eq!(r.authorization, "Bearer tok");
    assert!(r.form.is_none());
    let r = torrent_info_request("tok", "abc123");
    assert_eq!(r.url, "https://api.real-debrid.com/rest/1.0/torrents/info/abc123");
    let r = unrestrict_link_request("tok", "https://host/f");
    assert_eq!(r.method, HttpMethod::Post);
    assert_eq!(r.url, "https://api.real-debrid.com/rest/1.0/unrestrict/link");
    assert_eq!(r.form, Some(("link".to_string(), "https://host/f".to_string())));
}

#[test]
fn hashes_join_in_order() {
    let hashes = vec!["h1".to_string(), "h2".to_string(), "h3".to_string()];
    let r = instant_availability_request("t", &hashes);
    assert_eq!(
        r.url,
        "https://api.real-debrid.com/rest/1.0/torrents/instantAvailability/h1/h2/h3"
    );
    let r = instant_availability_request("t", &vec![]);
    assert_eq!(r.url, "https://api.real-debrid.com/rest/1.0/torrents/instantAvailability/");
}

#[test]
fn magnet_then_select_uses_returned_id() {
    let add = add_magnet_request("tok", "magnet:?xt=urn:btih:1");
    assert_eq!(add.url, "https://api.real-debrid.com/rest/1.0/torrents/addMagnet");
    assert_eq!(add.form, Some(("magnet".to_string(), "magnet:?xt=urn:btih:1".to_string())));
    let sel = select_files_request("tok", "abc123", "all");
    assert_eq!(sel.method, HttpMethod::Post);
    assert_eq!(sel.url, "https://api.real-debrid.com/rest/1.0/torrents/selectFiles/abc123");
    assert_eq!(sel.form, Some(("files".to_string(), "all".to_string())));
    let other = select_files_request("tok", "abc124", "all");
    assert_ne!(other.url, sel.url);
}

#[test]
fn status_failure_carries_status() {
    let r = with_message(check_reply(answered(404, Some("Not Found"), "")));
    assert_eq!(r.unwrap_err(), "API error: 404 Not Found");
    let r = with_message(check_reply(answered(599, None, "x")));
    assert_eq!(r.unwrap_err(), "API error: 599 <unknown status code>");
    let r = check_reply(answered(199, Some("x"), "b"));
    assert!(matches!(r, Err(RdError::Status { code: 199, .. })));
}

#[test]
fn success_yields_body() {
    let r = check_reply(answered(200, Some("OK"), "{}"));
    assert_eq!(r.unwrap(), "{}");
    let r = check_reply(answered(299, None, "b"));
    assert_eq!(r.unwrap(), "b");
}

#[test]
fn transport_failure_is_its_own_kind() {
    let r = check_reply(HttpReply::Unreached("connection refused".to_string()));
    assert!(matches!(r, Err(RdError::Transport(_))));
    assert_eq!(with_message(r).unwrap_err(), "connection refused");
}

#[test]
fn decode_failure_message() {
    let r: Result<(), String> = with_message(Err(RdError::Decode("missing field `id`".to_string())));
    assert_eq!(r.unwrap_err(), "missing field `id`");
}

#[test]
fn select_files_outcomes() {
    assert_eq!(select_files_result(answered(204, Some("No Content"), "")), Ok(()));
    assert_eq!(
        select_files_result(answered(403, Some("Forbidden"), "")),
        Err("API error: 403 Forbidden".to_string())
    );
}

#[test]
fn invalid_token_is_a_result() {
    let r = validation_result(Err(RdError::Status { code: 401, phrase: Some("Unauthorized".to_string()) }));
    assert!(!r.valid);
    assert!(r.user.is_none());
    assert_eq!(r.error.as_deref(), Some("API error: 401 Unauthorized"));
    let r = validation_result(Err(RdError::Transport("timed out".to_string())));
    assert_eq!(r.error.as_deref(), Some("Request failed: timed out"));
    let r = validation_result(Err(RdError::Decode("bad".to_string())));
    assert_eq!(r.error.as_deref(), Some("Failed to parse response: bad"));
}

#[test]
fn valid_token_carries_user() {
    let r = validation_result(Ok(user()));
    assert!(r.valid);
    assert!(r.error.is_none());
    assert_eq!(r.user.unwrap().username, "u");
}

#[test]
fn fetch_results() {
    assert_eq!(fetch_url_result(answered(200, Some("OK"), "page")), Ok("page".to_string()));
    assert_eq!(
        fetch_url_result(answered(500, Some("Internal Server Error"), "")),
        Err("Request failed with status: 500 Internal Server Error".to_string())
    );
    assert_eq!(
        fetch_url_result(HttpReply::Unreached("dns".to_string())),
        Err("dns".to_string())
    );
}

#[test]
fn decimal_texts() {
    assert_eq!(decimal_text(0), "0");
    assert_eq!(decimal_text(404), "404");
    assert_eq!(decimal_text(65535), "65535");
    assert_eq!(status_line(301, &Some("Moved Permanently".to_string())), "301 Moved Permanently");
}
