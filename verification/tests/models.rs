use soundcloud::tracklist::{existing_urns, kept_urns, merged_urns};
use soundcloud::{
    location_url, not_following, resource_kind, App, Body, Client, ClientError, FormPart, Method, Playlist,
    ResourceKind, Track, User,
};

fn user() -> User {
    User {
        id: 1,
        urn: Some("soundcloud:users:1".to_string()),
        permalink: "u".to_string(),
        username: "u".to_string(),
        uri: "https://api.soundcloud.com/users/1".to_string(),
        permalink_url: "https://soundcloud.com/u".to_string(),
        avatar_url: "https://a".to_string(),
        country: None,
        full_name: None,
        city: None,
        description: None,
        discogs_name: None,
        myspace_name: None,
        website: None,
        website_title: None,
        online: None,
        track_count: None,
        playlist_count: None,
        followers_count: None,
        followings_count: None,
        public_favorites_count: None,
    }
}

fn track(id: u64, urn: Option<&str>) -> Track {
    Track {
        id,
        urn: urn.map(|s| s.to_string()),
        created_at: "2020".to_string(),
        user: user(),
        title: format!("track {}", id),
        permalink_url: "p".to_string(),
        uri: "u".to_string(),
        sharing: "public".to_string(),
        purchase_url: None,
        artwork_url: None,
        description: None,
        duration: 1000,
        genre: None,
        tags: None,
        label_name: None,
        release: None,
        release_day: None,
        release_month: None,
        release_year: None,
        streamable: true,
        downloadable: false,
        purchase_title: None,
        license: "all-rights-reserved".to_string(),
        waveform_url: "w".to_string(),
        download_url: None,
        stream_url: Some("https://api.soundcloud.com/tracks/1/stream".to_string()),
        bpm: None,
        commentable: true,
        isrc: None,
        key_signature: None,
        comment_count: None,
        download_count: None,
        playback_count: None,
        favoritings_count: None,
        created_with: Some(App {
            id: 2,
            urn: None,
            uri: "a".to_string(),
            permalink_url: "a".to_string(),
            external_url: "a".to_string(),
            creator: None,
        }),
        asset_data: None,
        artwork_data: None,
        user_favorite: None,
        reveal_stats: None,
        reveal_comments: None,
        access: None,
    }
}

fn playlist(tracks: Option<Vec<Track>>) -> Playlist {
    Playlist {
        id: 9,
        urn: Some("soundcloud:playlists:9".to_string()),
        title: None,
        uri: None,
        permalink_url: None,
        user: None,
        track_count: None,
        tracks,
    }
}

#[test]
fn tracks_are_equal_by_id_alone() {
    let a = track(1, Some("x"));
    let mut b = track(1, None);
    b.title = "other".to_string();
    let c = track(2, Some("x"));
    assert!(a == b);
    assert!(b == a);
    assert!(a == a);
    assert!(a != c);
}

#[test]
fn stream_and_download_checks() {
    let c = Client::new("abc");
    let mut t = track(1, None);
    let r = c.stream(&t).unwrap();
    assert_eq!(r.method, Method::Get);
    assert_eq!(r.url.serialization, "https://api.soundcloud.com/tracks/1/stream?client_id=abc");
    assert!(r.authorization.is_none());
    assert!(matches!(c.download(&t), Err(ClientError::TrackNotDownloadable)));
    t.streamable = false;
    assert!(matches!(c.stream(&t), Err(ClientError::TrackNotStreamable)));
    t.downloadable = true;
    t.download_url = Some("https://api.soundcloud.com/tracks/1/download".to_string());
    let mut authed = Client::new("abc");
    authed.authenticate_with_token("tok".to_string());
    let r = authed.download(&t).unwrap();
    assert_eq!(r.url.serialization, "https://api.soundcloud.com/tracks/1/download?client_id=abc");
    assert!(r.authorization.is_none());
}

#[test]
fn redirect_is_followed_as_is() {
    let c = Client::new("abc");
    let r = c.redirect("https://cdn.example.com/a.mp3?sig=1").unwrap();
    assert_eq!(r.url.serialization, "https://cdn.example.com/a.mp3?sig=1");
    assert!(r.authorization.is_none());
}

#[test]
fn resource_kinds_by_path() {
    assert_eq!(resource_kind("/tracks/12").unwrap(), ResourceKind::Track);
    assert_eq!(resource_kind("/users/3").unwrap(), ResourceKind::User);
    assert_eq!(resource_kind("/playlists/4").unwrap(), ResourceKind::Playlist);
    assert_eq!(resource_kind("/users/3/tracks/5").unwrap(), ResourceKind::Track);
    match resource_kind("/comments/1") {
        Err(ClientError::ApiError(m)) => assert_eq!(m, "unknown resource type: /comments/1"),
        _ => panic!("expected an API error"),
    }
    assert!(resource_kind("/tracks").is_err());
}

#[test]
fn resolve_typed_target_reads_the_location_path() {
    let c = Client::new("abc");
    let (path, r) = c.resolve_typed_target(Some("https://api.soundcloud.com/tracks/42?secret=1")).unwrap();
    assert_eq!(path, "/tracks/42");
    assert_eq!(r.url.serialization, "https://api.soundcloud.com/tracks/42?client_id=abc");
    match c.resolve_typed_target(None) {
        Err(ClientError::ApiError(m)) => assert_eq!(m, "expected location header"),
        _ => panic!("expected an API error"),
    }
}

#[test]
fn location_is_required() {
    match location_url(None) {
        Err(ClientError::ApiError(m)) => assert_eq!(m, "expected location header"),
        _ => panic!("expected an API error"),
    }
    let u = location_url(Some("https://soundcloud.com/a")).unwrap();
    assert_eq!(u.serialization, "https://soundcloud.com/a");
    assert_eq!(u.path, "/a");
    assert!(matches!(location_url(Some("nope")), Err(ClientError::UrlParseError(_))));
}

#[test]
fn not_found_means_not_following() {
    assert!(not_following(Some(404)));
    assert!(!not_following(Some(500)));
    assert!(!not_following(None));
}

#[test]
fn adding_tracks_appends_new_urns_once() {
    let tracks = Some(vec![track(1, Some("a")), track(2, None), track(3, Some("b"))]);
    assert_eq!(existing_urns(&tracks), vec!["a".to_string(), "b".to_string()]);
    let merged = merged_urns(&tracks, &["b", "c", "c", "d"]);
    assert_eq!(merged, vec!["a", "b", "c", "d"]);
    assert_eq!(merged_urns(&None, &["x"]), vec!["x"]);
}

#[test]
fn removing_tracks_keeps_order() {
    let tracks = Some(vec![track(1, Some("a")), track(2, Some("b")), track(3, Some("c")), track(4, Some("a"))]);
    assert_eq!(kept_urns(&tracks, &["a"]), vec!["b", "c"]);
    assert_eq!(kept_urns(&tracks, &["z"]), vec!["a", "b", "c", "a"]);
    assert!(kept_urns(&None, &["a"]).is_empty());
}

#[test]
fn remove_after_add_is_remove() {
    let tracks = Some(vec![track(1, Some("a")), track(2, Some("b"))]);
    let added = merged_urns(&tracks, &["b", "c"]);
    let tracks2 = Some(
        added.iter().enumerate().map(|(i, u)| track(i as u64, Some(u.as_str()))).collect::<Vec<_>>(),
    );
    assert_eq!(kept_urns(&tracks2, &["b", "c"]), kept_urns(&tracks, &["b", "c"]));
    assert_eq!(merged_urns(&tracks2, &["b", "c"]), added);
}

#[test]
fn playlist_edit_requests() {
    let c = Client::new("abc");
    let p = playlist(Some(vec![track(1, Some("a"))]));
    let r = c.add_tracks_to_playlist("soundcloud:playlists:9", &p, &["b"]).unwrap();
    assert_eq!(r.method, Method::Put);
    assert_eq!(r.url.serialization, "https://api.soundcloud.com/playlists/soundcloud:playlists:9?client_id=abc");
    assert!(r.json_content);
    assert!(matches!(&r.body, Body::PlaylistTracks(t) if t == &vec!["a".to_string(), "b".to_string()]));
    let r = c.remove_tracks_from_playlist("9", &p, &["a"]).unwrap();
    assert!(matches!(&r.body, Body::PlaylistTracks(t) if t.is_empty()));
    let r = c.reorder_playlist_tracks("9", &["y", "x"]).unwrap();
    assert!(matches!(&r.body, Body::PlaylistTracks(t) if t == &vec!["y".to_string(), "x".to_string()]));
}

#[test]
fn reposts_paths() {
    let c = Client::new("abc");
    let r = c.user_reposts("soundcloud:users:5").tracks(Some(3)).unwrap();
    assert_eq!(
        r.url.serialization,
        "https://api.soundcloud.com/users/soundcloud:users:5/reposts/tracks?client_id=abc&limit=3"
    );
    let r = c.user_reposts("u").playlists(None).unwrap();
    assert_eq!(r.url.serialization, "https://api.soundcloud.com/users/u/reposts/playlists?client_id=abc");
    let mine = c.my_reposts();
    assert_eq!(mine.tracks(None).unwrap().url.serialization, "https://api.soundcloud.com/me/reposts/tracks?client_id=abc");
    assert_eq!(
        mine.playlists(Some(1)).unwrap().url.serialization,
        "https://api.soundcloud.com/me/reposts/playlists?client_id=abc&limit=1"
    );
    let r = mine.repost_track("t").unwrap();
    assert_eq!((r.method, r.url.serialization.as_str()), (Method::Post, "https://api.soundcloud.com/reposts/tracks/t"));
    let r = mine.remove_repost_track("t").unwrap();
    assert_eq!(r.method, Method::Delete);
    let r = mine.repost_playlist("p").unwrap();
    assert_eq!((r.method, r.url.serialization.as_str()), (Method::Post, "https://api.soundcloud.com/reposts/playlists/p"));
    let r = mine.remove_repost_playlist("p").unwrap();
    assert_eq!((r.method, r.url.serialization.as_str()), (Method::Delete, "https://api.soundcloud.com/reposts/playlists/p"));
}

fn text(p: &FormPart) -> (String, String) {
    match p {
        FormPart::Text { name, value } => (name.clone(), value.clone()),
        FormPart::Bytes { name, .. } => (name.clone(), String::new()),
    }
}

#[test]
fn upload_form_has_fixed_order() {
    let c = Client::new("abc");
    let r = c
        .upload_track("Song", vec![9])
        .isrc("US1")
        .bpm(120)
        .genre("Rock")
        .tags("a b")
        .downloadable(true)
        .streamable(false)
        .release_date(1, 2, 2003)
        .artwork(vec![7])
        .description("d")
        .sharing("private")
        .license("cc-by")
        .purchase_url("https://buy")
        .purchase_title("Buy")
        .key_signature("C")
        .send()
        .unwrap();
    assert_eq!(r.url.serialization, "https://api.soundcloud.com/tracks?client_id=abc");
    let parts = match r.body {
        Body::Form(p) => p,
        _ => panic!("expected a form"),
    };
    let names: Vec<(String, String)> = parts.iter().map(text).collect();
    let expect: Vec<(&str, &str)> = vec![
        ("track[title]", "Song"),
        ("track[asset_data]", ""),
        ("track[genre]", "Rock"),
        ("track[tag_list]", "a b"),
        ("track[description]", "d"),
        ("track[artwork_data]", ""),
        ("track[sharing]", "private"),
        ("track[downloadable]", "true"),
        ("track[streamable]", "false"),
        ("track[license]", "cc-by"),
        ("track[purchase_url]", "https://buy"),
        ("track[purchase_title]", "Buy"),
        ("track[release_day]", "1"),
        ("track[release_month]", "2"),
        ("track[release_year]", "2003"),
        ("track[bpm]", "120"),
        ("track[key_signature]", "C"),
        ("track[isrc]", "US1"),
    ];
    let expect: Vec<(String, String)> = expect.into_iter().map(|(a, b)| (a.to_string(), b.to_string())).collect();
    assert_eq!(names, expect);
    assert!(matches!(&parts[5], FormPart::Bytes { data, file_name: Some(f), mime: Some(m), .. }
        if data == &vec![7] && f == "artwork.jpg" && m == "image/jpeg"));
}

#[test]
fn upload_with_title_only() {
    let c = Client::new("abc");
    let r = c.upload_track("Only", vec![]).send().unwrap();
    match r.body {
        Body::Form(p) => assert_eq!(p.len(), 2),
        _ => panic!("expected a form"),
    }
}

#[test]
fn stream_without_url_is_refused() {
    let c = Client::new("abc");
    let mut t = track(1, None);
    t.stream_url = None;
    assert!(matches!(c.stream(&t), Err(ClientError::TrackNotStreamable)));
    t.downloadable = true;
    t.download_url = None;
    assert!(matches!(c.download(&t), Err(ClientError::TrackNotDownloadable)));
}

#[test]
fn playlist_with_unnamed_track_is_refused() {
    let c = Client::new("abc");
    let p = playlist(Some(vec![track(1, Some("a")), track(2, None)]));
    match c.add_tracks_to_playlist("9", &p, &[]) {
        Err(ClientError::ApiError(m)) => assert_eq!(m, "playlist holds a track without a URN"),
        _ => panic!("expected an API error"),
    }
    assert!(matches!(c.remove_tracks_from_playlist("9", &p, &["a"]), Err(ClientError::ApiError(_))));
    let empty = playlist(None);
    let r = c.add_tracks_to_playlist("9", &empty, &["x"]).unwrap();
    assert!(matches!(&r.body, Body::PlaylistTracks(t) if t == &vec!["x".to_string()]));
}

#[test]
fn simple_upload_equals_builder_upload() {
    let c = Client::new("abc");
    let a = c.upload_track_simple("S", vec![1]).unwrap();
    let b = c.upload_track("S", vec![1]).send().unwrap();
    assert_eq!(a.url.serialization, b.url.serialization);
    assert_eq!(a.method, b.method);
    assert_eq!(format!("{:?}", a.body), format!("{:?}", b.body));
}

#[test]
fn setters_in_either_order_give_the_same_form() {
    let c = Client::new("abc");
    let a = c.upload_track("S", vec![1]).genre("g").bpm(120).send().unwrap();
    let b = c.upload_track("S", vec![1]).bpm(120).genre("g").send().unwrap();
    assert_eq!(format!("{:?}", a.body), format!("{:?}", b.body));
}

#[test]
fn client_id_goes_before_the_fragment() {
    let c = Client::new("a b");
    let mut t = track(1, None);
    t.streamable = true;
    t.stream_url = Some("https://cdn.example.com/a.mp3?sig=1#t=5".to_string());
    let r = c.stream(&t).unwrap();
    assert_eq!(r.url.serialization, "https://cdn.example.com/a.mp3?sig=1&client_id=a+b#t=5");
    assert_eq!(r.url.query_text.as_deref(), Some("sig=1&client_id=a+b"));
    assert_eq!(r.url.fragment.as_deref(), Some("t=5"));
    assert_eq!(
        r.url.query,
        vec![("sig".to_string(), "1".to_string()), ("client_id".to_string(), "a b".to_string())]
    );
}
