use soundcloud::endpoints::limit_param;
use soundcloud::{Body, Client, ClientError, FormPart, Method, Request, API_HOST};

fn client() -> Client {
    Client::new("abc")
}

fn authed() -> Client {
    let mut c = Client::new("abc");
    c.authenticate_with_token("tok".to_string());
    c
}

fn url(r: &Request) -> &str {
    r.url.serialization.as_str()
}

#[test]
fn new_client_has_id_and_host() {
    let c = client();
    assert_eq!(c.client_id(), "abc");
    assert_eq!(API_HOST, "https://api.soundcloud.com");
    let r = c.me().unwrap();
    assert_eq!(url(&r), "https://api.soundcloud.com/me?client_id=abc");
    assert!(r.authorization.is_none());
}

#[test]
fn get_appends_client_id_then_params() {
    let c = client();
    let params = vec![("limit".to_string(), "5".to_string()), ("q".to_string(), "a b&c".to_string())];
    let r = c.get("/tracks", Some(params)).unwrap();
    assert_eq!(r.method, Method::Get);
    assert_eq!(url(&r), "https://api.soundcloud.com/tracks?client_id=abc&limit=5&q=a+b%26c");
    assert_eq!(r.url.path, "/tracks");
    let q: Vec<(String, String)> = r.url.query.clone();
    assert_eq!(
        q,
        vec![
            ("client_id".to_string(), "abc".to_string()),
            ("limit".to_string(), "5".to_string()),
            ("q".to_string(), "a b&c".to_string()),
        ]
    );
    assert!(matches!(r.body, Body::Empty));
    assert!(!r.json_content);
}

#[test]
fn get_keeps_a_query_in_the_path() {
    let c = client();
    let r = c.get("/tracks?x=1", None).unwrap();
    assert_eq!(url(&r), "https://api.soundcloud.com/tracks?x=1&client_id=abc");
}

#[test]
fn authenticated_requests_carry_oauth_header() {
    let c = authed();
    let r = c.likes().unwrap();
    assert_eq!(url(&r), "https://api.soundcloud.com/me/likes/tracks?client_id=abc&limit=500");
    assert_eq!(r.authorization.as_deref(), Some("OAuth tok"));
}

#[test]
fn invalid_token_is_refused() {
    let mut c = Client::new("abc");
    c.authenticate_with_token("bad\ntoken".to_string());
    assert!(matches!(c.me(), Err(ClientError::HttpInvalidHeaderError(_))));
    assert!(matches!(c.like_track("urn"), Err(ClientError::HttpInvalidHeaderError(_))));
    assert!(c.get_page("https://api.soundcloud.com/me/likes").is_none());
}

#[test]
fn tab_and_non_ascii_in_token_are_sendable() {
    let mut c = Client::new("abc");
    c.authenticate_with_token("t\tö".to_string());
    let r = c.me().unwrap();
    assert_eq!(r.authorization.as_deref(), Some("OAuth t\tö"));
}

#[test]
fn bare_requests_have_no_client_id() {
    let c = authed();
    let r = c.like_track("soundcloud:tracks:1").unwrap();
    assert_eq!(r.method, Method::Post);
    assert_eq!(url(&r), "https://api.soundcloud.com/likes/tracks/soundcloud:tracks:1");
    assert_eq!(r.authorization.as_deref(), Some("OAuth tok"));
    let r = c.unlike_track("7").unwrap();
    assert_eq!(r.method, Method::Delete);
    assert_eq!(url(&r), "https://api.soundcloud.com/likes/tracks/7");
    let r = c.like_playlist("8").unwrap();
    assert_eq!((r.method, url(&r)), (Method::Post, "https://api.soundcloud.com/likes/playlists/8"));
    let r = c.unlike_playlist("8").unwrap();
    assert_eq!((r.method, url(&r)), (Method::Delete, "https://api.soundcloud.com/likes/playlists/8"));
    let r = c.follow_user("9").unwrap();
    assert_eq!((r.method, url(&r)), (Method::Put, "https://api.soundcloud.com/me/followings/9"));
    let r = c.unfollow_user("9").unwrap();
    assert_eq!((r.method, url(&r)), (Method::Delete, "https://api.soundcloud.com/me/followings/9"));
    let r = c.post("/x").unwrap();
    assert_eq!(url(&r), "https://api.soundcloud.com/x");
    let r = c.put("/y").unwrap();
    assert_eq!((r.method, url(&r)), (Method::Put, "https://api.soundcloud.com/y"));
    let r = c.delete("/z").unwrap();
    assert_eq!((r.method, url(&r)), (Method::Delete, "https://api.soundcloud.com/z"));
}

#[test]
fn unparseable_url_is_a_parse_error() {
    let mut c = Client::new("abc");
    c.authenticate_with_token("tok".to_string());
    let r = c.redirect("not a url");
    assert!(r.is_none());
    assert!(matches!(c.resolve_typed_target(Some("::")), Err(ClientError::UrlParseError(_))));
}

#[test]
fn list_calls_build_their_queries() {
    let c = client();
    assert_eq!(url(&c.my_playlists().unwrap()), "https://api.soundcloud.com/me/playlists?client_id=abc&limit=500");
    assert_eq!(
        url(&c.recently_played().unwrap()),
        "https://api.soundcloud.com/me/recently-played/tracks?client_id=abc"
    );
    assert_eq!(url(&c.feed(Some(20)).unwrap()), "https://api.soundcloud.com/me/feed?client_id=abc&limit=20");
    assert_eq!(url(&c.feed(None).unwrap()), "https://api.soundcloud.com/me/feed?client_id=abc");
    assert_eq!(
        url(&c.track_streams("soundcloud:tracks:5").unwrap()),
        "https://api.soundcloud.com/tracks/soundcloud:tracks:5/streams?client_id=abc"
    );
    assert_eq!(url(&c.recommendations().unwrap()), "https://api.soundcloud.com/me/recommendations?client_id=abc");
    assert_eq!(url(&c.track_insights().unwrap()), "https://api.soundcloud.com/me/insights/tracks?client_id=abc");
    assert_eq!(url(&c.track_insight("3").unwrap()), "https://api.soundcloud.com/me/insights/tracks/3?client_id=abc");
    assert_eq!(url(&c.follows_user("4").unwrap()), "https://api.soundcloud.com/me/followings/4?client_id=abc");
    assert_eq!(url(&c.playlist_request("6").unwrap()), "https://api.soundcloud.com/playlists/6?client_id=abc");
    assert_eq!(
        url(&c.resolve("https://soundcloud.com/a/b").unwrap()),
        "https://api.soundcloud.com/resolve?client_id=abc&url=https%3A%2F%2Fsoundcloud.com%2Fa%2Fb"
    );
    assert_eq!(url(&c.resolve_typed("x").unwrap()), "https://api.soundcloud.com/resolve?client_id=abc&url=x");
}

#[test]
fn charts_and_trending_filters() {
    let c = client();
    assert_eq!(url(&c.charts(None, None).unwrap()), "https://api.soundcloud.com/charts?client_id=abc");
    assert_eq!(
        url(&c.charts(Some("top"), Some("rock")).unwrap()),
        "https://api.soundcloud.com/charts?client_id=abc&kind=top&genre=rock"
    );
    assert_eq!(url(&c.charts(None, Some("jazz")).unwrap()), "https://api.soundcloud.com/charts?client_id=abc&genre=jazz");
    assert_eq!(url(&c.trending(Some("pop")).unwrap()), "https://api.soundcloud.com/trending?client_id=abc&genre=pop");
    assert_eq!(url(&c.trending(None).unwrap()), "https://api.soundcloud.com/trending?client_id=abc");
}

#[test]
fn limit_param_renders_decimal() {
    let p = limit_param(Some(18446744073709551615)).unwrap();
    assert_eq!(p, vec![("limit".to_string(), "18446744073709551615".to_string())]);
    assert_eq!(limit_param(Some(0)).unwrap()[0].1, "0");
    assert!(limit_param(None).is_none());
}

#[test]
fn json_calls_declare_json_and_carry_client_id() {
    let c = authed();
    let body: serde_json::Value = serde_json::from_str(r#"{"track": {"title": "x"}}"#).unwrap();
    let r = c.update_track("t1", body.clone()).unwrap();
    assert_eq!((r.method, url(&r)), (Method::Put, "https://api.soundcloud.com/tracks/t1?client_id=abc"));
    assert!(r.json_content);
    assert!(matches!(&r.body, Body::Json(v) if v == &body));
    let r = c.create_playlist(serde_json::Value::Null).unwrap();
    assert_eq!((r.method, url(&r)), (Method::Post, "https://api.soundcloud.com/playlists?client_id=abc"));
    assert!(r.json_content);
    assert!(matches!(&r.body, Body::Json(serde_json::Value::Null)));
    let r = c.update_playlist("p1", serde_json::Value::Bool(true)).unwrap();
    assert_eq!((r.method, url(&r)), (Method::Put, "https://api.soundcloud.com/playlists/p1?client_id=abc"));
    let r = c.delete_track("t1").unwrap();
    assert_eq!((r.method, url(&r)), (Method::Delete, "https://api.soundcloud.com/tracks/t1?client_id=abc"));
    assert!(!r.json_content);
    let r = c.delete_playlist("p1").unwrap();
    assert_eq!((r.method, url(&r)), (Method::Delete, "https://api.soundcloud.com/playlists/p1?client_id=abc"));
    assert_eq!(r.authorization.as_deref(), Some("OAuth tok"));
}

#[test]
fn simple_upload_form() {
    let c = client();
    let r = c.upload_track_simple("My song", vec![1, 2, 3]).unwrap();
    assert_eq!((r.method, url(&r)), (Method::Post, "https://api.soundcloud.com/tracks?client_id=abc"));
    match r.body {
        Body::Form(parts) => {
            assert_eq!(parts.len(), 2);
            assert!(matches!(&parts[0], FormPart::Text { name, value } if name == "track[title]" && value == "My song"));
            assert!(matches!(&parts[1], FormPart::Bytes { name, data, file_name: None, mime: None }
                if name == "track[asset_data]" && data == &vec![1, 2, 3]));
        }
        _ => panic!("expected a form"),
    }
}
