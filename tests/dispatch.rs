use isocountry::CountryCode;
use spotify_client::dispatch::{DispatchAction, DispatchError, DispatchEvent, RequestClient, MAX_REFRESHES};
use spotify_client::request::{authorize, Method, RequestDescriptor};

fn sent_token(a: &DispatchAction) -> String {
    match a {
        DispatchAction::Send(t) => t.clone(),
        other => panic!("expected a send, got {:?}", other),
    }
}

#[test]
fn retry_on_unauthorized_uses_new_token() {
    let mut client = RequestClient::new("old-token", "refresh-token");
    let (mut call, first) = client.begin();
    assert_eq!(sent_token(&first), "old-token");
    let a = client.advance(&mut call, DispatchEvent::Responded(401));
    assert!(matches!(a, DispatchAction::Refresh(ref r) if r == "refresh-token"));
    let a = client.advance(&mut call, DispatchEvent::Refreshed("new-token".to_string()));
    assert_eq!(sent_token(&a), "new-token");
    let a = client.advance(&mut call, DispatchEvent::Responded(200));
    assert!(matches!(a, DispatchAction::Deliver));
    let (_, again) = client.begin();
    assert_eq!(sent_token(&again), "new-token");
}

#[test]
fn retry_returns_second_outcome() {
    let mut client = RequestClient::new("a", "r");
    let (mut call, _) = client.begin();
    client.advance(&mut call, DispatchEvent::Responded(401));
    client.advance(&mut call, DispatchEvent::Refreshed("b".to_string()));
    let a = client.advance(&mut call, DispatchEvent::Responded(404));
    assert!(matches!(a, DispatchAction::NoResult));
}

#[test]
fn forbidden_is_terminal_without_refresh() {
    let mut client = RequestClient::new("a", "r");
    let (mut call, _) = client.begin();
    let a = client.advance(&mut call, DispatchEvent::Responded(403));
    assert!(matches!(a, DispatchAction::NoResult));
    let (_, again) = client.begin();
    assert_eq!(sent_token(&again), "a");
}

#[test]
fn success_statuses_deliver() {
    for status in [200u16, 201, 202, 204] {
        let mut client = RequestClient::new("a", "r");
        let (mut call, _) = client.begin();
        assert!(matches!(client.advance(&mut call, DispatchEvent::Responded(status)), DispatchAction::Deliver));
    }
    for status in [203u16, 400, 429, 500] {
        let mut client = RequestClient::new("a", "r");
        let (mut call, _) = client.begin();
        assert!(matches!(client.advance(&mut call, DispatchEvent::Responded(status)), DispatchAction::NoResult));
    }
}

#[test]
fn repeated_unauthorized_is_bounded() {
    let mut client = RequestClient::new("a", "r");
    let (mut call, _) = client.begin();
    for i in 0..MAX_REFRESHES {
        let a = client.advance(&mut call, DispatchEvent::Responded(401));
        assert!(matches!(a, DispatchAction::Refresh(_)));
        let a = client.advance(&mut call, DispatchEvent::Refreshed(format!("t{}", i)));
        assert_eq!(sent_token(&a), format!("t{}", i));
    }
    let a = client.advance(&mut call, DispatchEvent::Responded(401));
    assert!(matches!(a, DispatchAction::Fail(DispatchError::ReauthenticationRequired)));
}

#[test]
fn hard_failures() {
    let mut client = RequestClient::new("a", "r");
    let (mut call, _) = client.begin();
    assert!(matches!(
        client.advance(&mut call, DispatchEvent::TransportFailed),
        DispatchAction::Fail(DispatchError::Transport)
    ));
    assert!(matches!(
        client.advance(&mut call, DispatchEvent::RefreshFailed),
        DispatchAction::Fail(DispatchError::Refresh)
    ));
}

#[test]
fn descriptor_reuse_after_refresh() {
    let mut client = RequestClient::new("first", "r");
    let request = RequestDescriptor::new(Method::Get, "https://api.spotify.com/v1/me".to_string());
    let one = client.authorize(&request);
    let (mut call, _) = client.begin();
    client.advance(&mut call, DispatchEvent::Responded(401));
    client.advance(&mut call, DispatchEvent::Refreshed("second".to_string()));
    let two = client.authorize(&request);
    assert_eq!(one.authorization, "Bearer first");
    assert_eq!(two.authorization, "Bearer second");
    assert_eq!(one.request.url, request.url);
    assert_eq!(two.request.url, request.url);
    assert_eq!(request.query.len(), 0);
    assert!(request.body.is_none());
    let copy = authorize(&request, "x");
    assert_eq!(copy.request.method, Method::Get);
}

#[test]
fn prepare_appends_parameters() {
    let mut client = RequestClient::new("a", "r");
    client.set_offset(Some(5));
    client.set_limit(Some(20));
    client.set_market(Some(CountryCode::USA));
    client.set_country(Some(CountryCode::SWE));
    let mut request = RequestDescriptor::new(Method::Get, "u".to_string());
    request.query.push(("ids".to_string(), "x".to_string()));
    let r = client.prepare(request);
    let expected: Vec<(String, String)> = vec![
        ("ids".to_string(), "x".to_string()),
        ("offset".to_string(), "5".to_string()),
        ("limit".to_string(), "20".to_string()),
        ("market".to_string(), "US".to_string()),
        ("country".to_string(), "SE".to_string()),
    ];
    assert_eq!(r.query, expected);
}

#[test]
fn prepare_without_parameters_keeps_query() {
    let client = RequestClient::new("a", "r");
    let r = client.prepare(RequestDescriptor::new(Method::Delete, "u".to_string()));
    assert!(r.query.is_empty());
    assert_eq!(r.method, Method::Delete);
}
