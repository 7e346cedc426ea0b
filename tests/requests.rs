use isocountry::CountryCode;
use spotify_client::album::{album_request, GetAlbumRequest};
use spotify_client::artist::{artist_albums_request, artist_top_tracks_request, GetArtistAlbumRequest, GetArtistTopTrackRequest, IncludeGroup};
use spotify_client::authentication::{authorization_code_form, refresh_token_form, Scope, SpotifyOAuth};
use spotify_client::browse::{
    attribute_pairs, category_request, featured_playlists_request, seed_pairs, AttributeKind, GetCategoryRequest,
    GetFeaturedPlaylistRequest, RecommendationFilter, Timestamp,
};
use spotify_client::follow::{follow_playlist_request, follow_requests, is_users_following_playlist_requests, CheckUserFollowPlaylistRequest, FollowPlaylistRequest, ObjectType as FollowType};
use spotify_client::library::{is_saved_requests, save_requests, ObjectType as LibraryType};
use spotify_client::personalization::{top_request, GetTopRequest, ObjectType as TopType, TimeRange};
use spotify_client::player::{
    current_playback_request, recently_played_request, seek_request, skip_next_request, start_request,
    transfer_playback_request, GetCurrentlyRequest, GetRecentlyPlayedTracksRequest, ObjectType as PlayingType,
    PlayOffset, SeekRequest, SkipRequest, StartRequest, TransferPlaybackRequest,
};
use spotify_client::playlist::{
    add_items_requests, change_detail_request, create_playlist_request, remove_items_requests, reorder_request,
    replace_request, AddItemsRequest, ChangeDetailRequest, CreatePlaylistRequest, RemoveItemsRequest, ReorderRequest,
    ReplaceRequest,
};
use spotify_client::browse::MAX_TIMESTAMP_SECONDS;
use spotify_client::request::Method;
use spotify_client::search::{result_member, ObjectType as SearchType, SearchClient};
use spotify_client::text::{decimal_text, join};

fn s(v: &str) -> String {
    v.to_string()
}

fn pairs(v: &[(&str, &str)]) -> Vec<(String, String)> {
    v.iter().map(|(k, x)| (s(k), s(x))).collect()
}

#[test]
fn numerals_and_joins() {
    assert_eq!(decimal_text(0), "0");
    assert_eq!(decimal_text(1234567890), "1234567890");
    assert_eq!(decimal_text(u64::MAX), u64::MAX.to_string());
    assert_eq!(join(&vec![s("a"), s("b"), s("c")], ","), "a,b,c");
    assert_eq!(join(&Vec::new(), ","), "");
}

#[test]
fn add_items_body_and_chunks() {
    let request = AddItemsRequest { playlist_id: s("p1"), uris: vec![s("spotify:track:a"), s("spotify:episode:b")], position: Some(3) };
    let r = add_items_requests(request);
    assert_eq!(r.len(), 1);
    assert_eq!(r[0].method, Method::Post);
    assert_eq!(r[0].url, "https://api.spotify.com/v1/playlists/p1/tracks");
    assert_eq!(r[0].body.as_deref(), Some(r#"{"uris":["spotify:track:a","spotify:episode:b"],"position":3}"#));
    let many = AddItemsRequest { playlist_id: s("p1"), uris: (0..250).map(|i| format!("u{}", i)).collect(), position: None };
    let r = add_items_requests(many);
    assert_eq!(r.len(), 3);
    assert!(r[2].body.as_deref().unwrap().ends_with(r#""u249"]}"#));
}

#[test]
fn remove_items_body() {
    let request = RemoveItemsRequest {
        playlist_id: s("p"),
        tracks: vec![(s("u1"), Some(vec![0, 2])), (s("u2"), None)],
        snapshot_id: Some(s("snap")),
    };
    let r = remove_items_requests(request);
    assert_eq!(r.len(), 1);
    assert_eq!(r[0].method, Method::Delete);
    assert_eq!(
        r[0].body.as_deref(),
        Some(r#"{"tracks":[{"uri":"u1","positions":[0,2]},{"uri":"u2"}],"snapshot_id":"snap"}"#)
    );
}

#[test]
fn change_detail_escapes_text() {
    let request = ChangeDetailRequest { playlist_id: s("p"), name: Some(s("say \"hi\"\n")), public: Some(false), collaborative: None, description: None };
    let r = change_detail_request(&request);
    assert_eq!(r.method, Method::Put);
    assert_eq!(r.url, "https://api.spotify.com/v1/playlists/p");
    assert_eq!(r.body.as_deref(), Some(r#"{"name":"say \"hi\"\n","public":false}"#));
}

#[test]
fn create_reorder_replace_bodies() {
    let c = create_playlist_request(&CreatePlaylistRequest {
        user_id: s("u"),
        name: s("test"),
        public: None,
        collaborative: Some(true),
        description: Some(s("API test playlist")),
    });
    assert_eq!(c.url, "https://api.spotify.com/v1/users/u/playlists");
    assert_eq!(c.body.as_deref(), Some(r#"{"name":"test","collaborative":true,"description":"API test playlist"}"#));
    let o = reorder_request(&ReorderRequest { playlist_id: s("p"), range_start: 1, range_length: Some(2), insert_before: 3, snapshot_id: None });
    assert_eq!(o.body.as_deref(), Some(r#"{"range_start":1,"insert_before":3,"range_length":2}"#));
    let p = replace_request(&ReplaceRequest { playlist_id: s("p"), uris: vec![s("a")] });
    assert_eq!(p.body.as_deref(), Some(r#"{"uris":["a"]}"#));
}

#[test]
fn start_bodies() {
    let bare = start_request(&None);
    assert_eq!(bare.method, Method::Put);
    assert_eq!(bare.url, "https://api.spotify.com/v1/me/player/play");
    assert!(bare.body.is_none());
    let full = start_request(&Some(StartRequest {
        context_uri: Some(s("spotify:album:x")),
        uris: Some(vec![s("ignored")]),
        offset: Some(PlayOffset::Position(5)),
        position_ms: Some(1000),
        device_id: Some(s("d")),
    }));
    assert_eq!(full.query, pairs(&[("device_id", "d")]));
    assert_eq!(full.body.as_deref(), Some(r#"{"context_uri":"spotify:album:x","offset":{"position":5},"position_ms":1000}"#));
    let tracks = start_request(&Some(StartRequest { uris: Some(vec![s("t")]), offset: Some(PlayOffset::Uri(s("t"))), ..Default::default() }));
    assert!(tracks.query.is_empty());
    assert_eq!(tracks.body.as_deref(), Some(r#"{"uris":["t"],"offset":{"uri":"t"}}"#));
}

#[test]
fn player_commands() {
    let seek = seek_request(&SeekRequest { position_ms: 25000, device_id: None });
    assert_eq!(seek.method, Method::Put);
    assert_eq!(seek.url, "https://api.spotify.com/v1/me/player/seek");
    assert_eq!(seek.query, pairs(&[("position_ms", "25000")]));
    let next = skip_next_request(&SkipRequest { device_id: Some(s("d")) });
    assert_eq!(next.method, Method::Post);
    assert_eq!(next.url, "https://api.spotify.com/v1/me/player/next");
    assert_eq!(next.query, pairs(&[("device_id", "d")]));
    let t = transfer_playback_request(&TransferPlaybackRequest { device_id: s("d"), play: Some(true) });
    assert_eq!(t.body.as_deref(), Some(r#"{"device_ids":["d"],"play":true}"#));
    let c = current_playback_request(&GetCurrentlyRequest { market: None, additional_types: Some(vec![PlayingType::Episode, PlayingType::Track]) });
    assert_eq!(c.query, pairs(&[("additional_types", "episode,track")]));
    let h = recently_played_request(&GetRecentlyPlayedTracksRequest { limit: Some(3), after: Some(5), before: None });
    assert_eq!(h.query, pairs(&[("after", "5")]));
}

#[test]
fn follow_and_library_batches() {
    let ids: Vec<String> = (0..60).map(|i| format!("a{}", i)).collect();
    let r = follow_requests(FollowType::Artist, ids);
    assert_eq!(r.len(), 2);
    assert_eq!(r[0].method, Method::Put);
    assert_eq!(r[0].query, pairs(&[("type", "artist")]));
    assert!(r[1].body.as_deref().unwrap().starts_with(r#"{"ids":["a50","#));
    let users = CheckUserFollowPlaylistRequest { playlist_id: s("p"), user_ids: (0..12).map(|i| format!("u{}", i)).collect() };
    let r = is_users_following_playlist_requests(users);
    assert_eq!(r.len(), 3);
    assert_eq!(r[2].query, pairs(&[("ids", "u10,u11")]));
    assert_eq!(r[0].url, "https://api.spotify.com/v1/playlists/p/followers/contains");
    let f = follow_playlist_request(&FollowPlaylistRequest { id: s("p"), public: None });
    assert_eq!(f.body.as_deref(), Some(r#"{"public":true}"#));
    let saved = is_saved_requests(LibraryType::Albums, vec![s("x"), s("y")]);
    assert_eq!(saved[0].url, "https://api.spotify.com/v1/me/albums/contains");
    assert_eq!(saved[0].query, pairs(&[("ids", "x,y")]));
    let save = save_requests(LibraryType::Tracks, vec![s("x")]);
    assert_eq!(save[0].method, Method::Put);
    assert_eq!(save[0].body.as_deref(), Some(r#"{"ids":["x"]}"#));
}

#[test]
fn artist_and_album_requests() {
    let a = album_request(&GetAlbumRequest { id: s("0sNOF9WDwhWunNAHPD3Baj"), market: None });
    assert_eq!(a.url, "https://api.spotify.com/v1/albums/0sNOF9WDwhWunNAHPD3Baj");
    let g = artist_albums_request(&GetArtistAlbumRequest {
        id: s("x"),
        include_groups: Some(vec![IncludeGroup::Album, IncludeGroup::AppearsOn]),
        ..Default::default()
    });
    assert_eq!(g.query, pairs(&[("include_groups", "album,appears_on")]));
    let t = artist_top_tracks_request(&GetArtistTopTrackRequest { id: s("x"), country: None });
    assert_eq!(t.query, pairs(&[("country", "from_token")]));
    let t = artist_top_tracks_request(&GetArtistTopTrackRequest { id: s("x"), country: Some(CountryCode::GBR) });
    assert_eq!(t.query, pairs(&[("country", "GB")]));
    assert_eq!(t.url, "https://api.spotify.com/v1/artists/x/top-tracks");
}

#[test]
fn browse_requests() {
    let c = category_request(&GetCategoryRequest { id: s("party"), country: Some(CountryCode::SWE), locale: None });
    assert_eq!(c.url, "https://api.spotify.com/v1/browse/categories/party");
    assert_eq!(c.query, pairs(&[("country", "SE")]));
    let f = featured_playlists_request(&GetFeaturedPlaylistRequest { timestamp: Some(Timestamp { seconds: 86400 + 3661 }), ..Default::default() }).unwrap();
    assert_eq!(f.query, pairs(&[("timestamp", "1970-01-02T01:01:01")]));
    assert!(featured_playlists_request(&GetFeaturedPlaylistRequest { timestamp: Some(Timestamp { seconds: i64::MAX }), ..Default::default() }).is_none());
    let q = seed_pairs(&Some(vec![s("a"), s("b")]), &None, &Some(vec![s("t")]));
    assert_eq!(q, pairs(&[("seed_artists", "a,b"), ("seed_tracks", "t")]));
    let q = attribute_pairs("max_", &vec![(AttributeKind::Tempo, s("120")), (AttributeKind::TimeSignature, s("4"))]);
    assert_eq!(q, pairs(&[("max_tempo", "120"), ("max_time_signature", "4")]));
}

#[test]
fn recommendation_filter() {
    let mut f = RecommendationFilter::new();
    for i in 0..6 {
        f.set_artist(&format!("a{}", i));
    }
    assert_eq!(f.seed.len(), 5);
    assert_eq!(f.seed[4], (s("seed_artists"), s("a4")));
    f.set_genre("rock");
    assert_eq!(f.seed.len(), 5);
    f.set_max_attribute(AttributeKind::Energy, "0.5");
    f.set_max_attribute(AttributeKind::Tempo, "100");
    f.set_max_attribute(AttributeKind::Energy, "0.7");
    assert_eq!(f.max_attribute, pairs(&[("max_energy", "0.7"), ("max_tempo", "100")]));
    f.set_target_attribute(AttributeKind::Key, "3");
    assert_eq!(f.target_attribute, pairs(&[("target_key", "3")]));
    assert!(f.min_attribute.is_empty());
}

#[test]
fn personalization_request() {
    let r = top_request(TopType::Artists, &GetTopRequest { time_range: Some(TimeRange::ShortTerm), ..Default::default() });
    assert_eq!(r.url, "https://api.spotify.com/v1/me/top/artists");
    assert_eq!(r.query, pairs(&[("time_range", "short_term")]));
    assert_eq!(TimeRange::default(), TimeRange::MediumTerm);
}

#[test]
fn search_query() {
    let mut c = SearchClient::new("a", "r");
    c.set_keyword("tania");
    c.set_artist_matching("bowra");
    c.set_year(2001);
    c.set_year_range((1990, 2000));
    c.set_limit(5);
    assert_eq!(c.to_query(), "tania artist:bowra year:2001 1990-2000");
    let r = c.search_request(SearchType::Track);
    assert_eq!(r.url, "https://api.spotify.com/v1/search");
    assert_eq!(r.query, pairs(&[("q", "tania artist:bowra year:2001 1990-2000"), ("type", "track")]));
    assert_eq!(result_member(SearchType::Track), "tracks");
}

#[test]
fn authorization() {
    let mut o = SpotifyOAuth::new("cid", "http://localhost/cb");
    let q = o.auth_query();
    let state = q[3].1.clone();
    assert_eq!(state.len(), 12);
    assert!(state.chars().all(|c| c.is_ascii_alphanumeric()));
    o.set_scopes(&[Scope::UserReadPrivate, Scope::Streaming]);
    o.generate_random_state(20);
    let q = o.auth_query();
    let state = q[3].1.clone();
    assert_eq!(state.len(), 20);
    assert_eq!(q[4], (s("scope"), s("user-read-private streaming")));
    let url = o.generate_auth_url().unwrap();
    assert_eq!(
        url,
        format!(
            "https://accounts.spotify.com/authorize?client_id=cid&response_type=code&redirect_uri=http%3A%2F%2Flocalhost%2Fcb&state={}&scope=user-read-private+streaming&show_dialog=false",
            state
        )
    );
    assert_eq!(Scope::UserFollowModify.as_str(), "user-follow-modify");
    assert_eq!(refresh_token_form("rt"), pairs(&[("grant_type", "refresh_token"), ("refresh_token", "rt")]));
    assert_eq!(authorization_code_form("c", "u").len(), 3);
}

#[test]
fn timestamp_range_and_playback_body() {
    for seconds in [-MAX_TIMESTAMP_SECONDS, MAX_TIMESTAMP_SECONDS] {
        let r = featured_playlists_request(&GetFeaturedPlaylistRequest { timestamp: Some(Timestamp { seconds }), ..Default::default() });
        assert!(r.is_some());
    }
    assert!(spotify_client::player::current_has_body(200));
    assert!(!spotify_client::player::current_has_body(204));
    let o = SpotifyOAuth::new("id", "https://example.com/callback");
    assert!(o.generate_auth_url().is_ok());
}
