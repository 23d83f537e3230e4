use lyrics_relay::auth::{authorize, AuthError};
use lyrics_relay::client::{LyricsAction, SpotifyClient, TokenStep};
use lyrics_relay::clock::now_millis;
use lyrics_relay::error::ClientError;
use lyrics_relay::lyrics::lyrics_from_response;
use lyrics_relay::request::{lyrics_request, token_request, UpstreamRequest};
use lyrics_relay::token::{response_fields, AccessToken};

const NOW: u64 = 1_700_000_000_000;

fn client_a() -> SpotifyClient {
    SpotifyClient::new(vec!["cookieA".to_string()]).unwrap()
}

fn token_body(token: &str, expires_at: u64) -> String {
    format!(
        "{{\"accessToken\":\"{}\",\"accessTokenExpirationTimestampMs\":{}}}",
        token, expires_at
    )
}

fn header_pairs(r: &UpstreamRequest) -> Vec<(String, String)> {
    r.headers.iter().map(|h| (h.name.clone(), h.value.clone())).collect()
}

/// Counts of the calls that a stand-in upstream received.
struct Upstream {
    exchanges: usize,
    fetches: usize,
    token_answers: Vec<String>,
}

/// One inbound lyrics request against a stand-in upstream, as the server runs it.
fn get_lyrics(
    client: &mut SpotifyClient,
    up: &mut Upstream,
    track_id: &str,
    now: u64,
    lyrics_status: u16,
    lyrics_body: &str,
) -> Result<serde_json::Value, ClientError> {
    let slot = client.select_credential();
    let req = match client.plan(slot, now) {
        TokenStep::Ready(t) => lyrics_request(&t, track_id),
        TokenStep::Exchange(req) => {
            assert!(req.url.contains("get_access_token"));
            let body = up.token_answers[up.exchanges.min(up.token_answers.len() - 1)].clone();
            up.exchanges += 1;
            client.resume_after_exchange(slot, 200, &body, track_id)?
        }
    };
    assert!(req.url.contains(track_id));
    up.fetches += 1;
    lyrics_from_response(lyrics_status, lyrics_body)
}

#[test]
fn new_refuses_empty_credential_set() {
    assert!(matches!(
        SpotifyClient::new(Vec::new()),
        Err(ClientError::NoCredentialsConfigured)
    ));
}

#[test]
fn new_client_caches_nothing() {
    let c = SpotifyClient::new(vec!["a".to_string(), "b".to_string()]).unwrap();
    assert_eq!(c.credential_count(), 2);
    assert_eq!(c.credential(1), "b");
    assert!(c.cached_token(0).is_none());
    assert!(c.cached_token(1).is_none());
}

#[test]
fn selection_stays_within_the_set() {
    let c = SpotifyClient::new(vec!["a".to_string(), "b".to_string(), "c".to_string()]).unwrap();
    for _ in 0..100 {
        assert!(c.select_credential() < 3);
    }
}

#[test]
fn begin_without_cache_exchanges() {
    let c = client_a();
    let (slot, now, step) = c.begin();
    assert_eq!(slot, 0);
    assert!(now > NOW);
    assert!(matches!(step, TokenStep::Exchange(_)));
}

#[test]
fn clock_reads_after_epoch() {
    assert!(now_millis() > NOW);
}

#[test]
fn empty_cache_plans_one_exchange() {
    let c = client_a();
    match c.plan(0, NOW) {
        TokenStep::Exchange(req) => {
            assert_eq!(
                req.url,
                "https://open.spotify.com/get_access_token?reason=transport&productType=web_player"
            );
            let h = header_pairs(&req);
            assert_eq!(h[1], ("Cookie".to_string(), "sp_dc=cookieA".to_string()));
        }
        TokenStep::Ready(_) => panic!("nothing is cached"),
    }
}

#[test]
fn fresh_token_is_reused_without_exchange() {
    let mut c = client_a();
    c.store_token(0, AccessToken { token: "T1".to_string(), expires_at: NOW + 1 });
    match c.plan(0, NOW) {
        TokenStep::Ready(t) => assert_eq!(t, "T1"),
        TokenStep::Exchange(_) => panic!("the token is fresh"),
    }
}

#[test]
fn token_expiring_now_is_stale() {
    let mut c = client_a();
    c.store_token(0, AccessToken { token: "OLD".to_string(), expires_at: NOW });
    assert!(matches!(c.plan(0, NOW), TokenStep::Exchange(_)));
    let t = c.complete_exchange(0, 200, &token_body("NEW", NOW + 3_600_000)).unwrap();
    assert_eq!(t, "NEW");
    let cached = c.cached_token(0).unwrap();
    assert_eq!(cached.token, "NEW");
    assert_eq!(cached.expires_at, NOW + 3_600_000);
}

#[test]
fn stale_token_in_the_past_is_replaced() {
    let mut c = client_a();
    c.store_token(0, AccessToken { token: "OLD".to_string(), expires_at: NOW - 5 });
    assert!(matches!(c.plan(0, NOW), TokenStep::Exchange(_)));
    c.complete_exchange(0, 200, &token_body("NEW", NOW + 10)).unwrap();
    assert!(matches!(c.plan(0, NOW), TokenStep::Ready(t) if t == "NEW"));
}

#[test]
fn serialized_requests_exchange_once() {
    let mut c = client_a();
    let mut up = Upstream {
        exchanges: 0,
        fetches: 0,
        token_answers: vec![token_body("T1", NOW + 3_600_000)],
    };
    for k in 0..8u64 {
        let r = get_lyrics(&mut c, &mut up, "abc123", NOW + k, 200, "{\"lyrics\":{\"lines\":[]}}");
        assert!(r.is_ok());
    }
    assert_eq!(up.exchanges, 1);
    assert_eq!(up.fetches, 8);
}

#[test]
fn missing_access_token_is_malformed_and_keeps_cache() {
    let mut c = client_a();
    c.store_token(0, AccessToken { token: "OLD".to_string(), expires_at: NOW - 1 });
    let r = c.complete_exchange(0, 200, "{\"accessTokenExpirationTimestampMs\":1}");
    assert_eq!(r, Err(ClientError::MalformedUpstreamResponse));
    assert_eq!(c.cached_token(0).unwrap().token, "OLD");
    assert_eq!(c.cached_token(0).unwrap().expires_at, NOW - 1);
}

#[test]
fn missing_expiry_is_malformed_and_keeps_cache() {
    let mut c = client_a();
    let r = c.complete_exchange(0, 200, "{\"accessToken\":\"T1\"}");
    assert_eq!(r, Err(ClientError::MalformedUpstreamResponse));
    assert!(c.cached_token(0).is_none());
}

#[test]
fn mistyped_fields_are_malformed() {
    let mut c = client_a();
    let r = c.complete_exchange(0, 200, "{\"accessToken\":7,\"accessTokenExpirationTimestampMs\":\"soon\"}");
    assert_eq!(r, Err(ClientError::MalformedUpstreamResponse));
    let r = c.complete_exchange(0, 200, "{\"accessToken\":\"T\",\"accessTokenExpirationTimestampMs\":-4}");
    assert_eq!(r, Err(ClientError::MalformedUpstreamResponse));
    assert!(c.cached_token(0).is_none());
}

#[test]
fn body_that_is_not_json_is_malformed() {
    let mut c = client_a();
    assert_eq!(
        c.complete_exchange(0, 200, "<html>denied</html>"),
        Err(ClientError::MalformedUpstreamResponse)
    );
}

#[test]
fn exchange_fields_stores_both() {
    let mut c = client_a();
    let r = c.exchange_fields(0, Some("T9".to_string()), Some(42));
    assert_eq!(r, Ok("T9".to_string()));
    assert_eq!(c.cached_token(0).unwrap().expires_at, 42);
    assert_eq!(
        c.exchange_fields(0, None, Some(43)),
        Err(ClientError::MalformedUpstreamResponse)
    );
    assert_eq!(c.cached_token(0).unwrap().expires_at, 42);
}

#[test]
fn from_fields_needs_both() {
    let t = AccessToken::from_fields(Some("x".to_string()), Some(5)).unwrap();
    assert_eq!(t.token, "x");
    assert_eq!(t.expires_at, 5);
    assert!(AccessToken::from_fields(None, None).is_err());
    assert!(AccessToken::from_fields(Some("x".to_string()), None).is_err());
}

#[test]
fn from_response_body_reads_both_fields() {
    let t = AccessToken::from_response_body(&token_body("abc", 99)).unwrap();
    assert_eq!(t.token, "abc");
    assert_eq!(t.expires_at, 99);
}

#[test]
fn validity_is_strict() {
    let t = AccessToken { token: "x".to_string(), expires_at: 10 };
    assert!(t.is_valid_at(9));
    assert!(!t.is_valid_at(10));
    assert!(!t.is_valid_at(11));
}

#[test]
fn not_found_is_request_failure_with_opaque_message() {
    let r = lyrics_from_response(404, "{\"error\":{\"status\":404,\"message\":\"not found\"}}");
    let e = r.unwrap_err();
    assert_eq!(e, ClientError::UpstreamRequestFailed { status: 404 });
    assert_eq!(e.public_message(), "Something went wrong");
    assert!(!e.public_message().contains("404"));
}

#[test]
fn ok_without_lyrics_is_request_failure() {
    assert_eq!(
        lyrics_from_response(200, "{\"other\":1}").unwrap_err(),
        ClientError::UpstreamRequestFailed { status: 200 }
    );
    assert_eq!(
        lyrics_from_response(200, "not json").unwrap_err(),
        ClientError::UpstreamRequestFailed { status: 200 }
    );
}

#[test]
fn lyrics_member_is_handed_on_verbatim() {
    let v = lyrics_from_response(200, "{\"lyrics\":{\"lines\":[{\"words\":\"la\"}],\"syncType\":\"LINE_SYNCED\"}}").unwrap();
    let expected: serde_json::Value =
        serde_json::from_str("{\"lines\":[{\"words\":\"la\"}],\"syncType\":\"LINE_SYNCED\"}").unwrap();
    assert_eq!(v, expected);
}

#[test]
fn messages_for_every_error() {
    let all = [
        ClientError::NoCredentialsConfigured,
        ClientError::UpstreamUnavailable,
        ClientError::MalformedUpstreamResponse,
        ClientError::UpstreamRequestFailed { status: 500 },
    ];
    for e in all.iter() {
        assert_eq!(e.public_message(), "Something went wrong");
        assert!(!e.diagnostic().is_empty());
    }
}

#[test]
fn token_request_is_exact() {
    let r = token_request("abc");
    let h = header_pairs(&r);
    assert_eq!(h.len(), 4);
    assert_eq!(h[0], ("App-platform".to_string(), "WebPlayer".to_string()));
    assert_eq!(h[1], ("Cookie".to_string(), "sp_dc=abc".to_string()));
    assert_eq!(h[2].0, "User-Agent");
    assert!(h[2].1.starts_with("Mozilla/5.0"));
    assert_eq!(h[3], ("Content-Type".to_string(), "text/html".to_string()));
}

#[test]
fn lyrics_request_is_exact() {
    let r = lyrics_request("TOK", "abc123");
    assert_eq!(
        r.url,
        "https://spclient.wg.spotify.com/color-lyrics/v2/track/abc123?format=json&market=from_token"
    );
    let h = header_pairs(&r);
    assert_eq!(h.len(), 4);
    assert_eq!(h[1], ("Authorization".to_string(), "Bearer TOK".to_string()));
}

#[test]
fn end_to_end_single_exchange_and_fetch() {
    let mut c = client_a();
    let mut up = Upstream {
        exchanges: 0,
        fetches: 0,
        token_answers: vec![token_body("T1", NOW + 3_600_000)],
    };
    let v = get_lyrics(&mut c, &mut up, "abc123", NOW, 200, "{\"lyrics\":{\"lines\":[]}}").unwrap();
    let expected: serde_json::Value = serde_json::from_str("{\"lines\":[]}").unwrap();
    assert_eq!(v, expected);
    assert_eq!(up.exchanges, 1);
    assert_eq!(up.fetches, 1);
}

#[test]
fn end_to_end_expired_token_is_exchanged_again() {
    let mut c = client_a();
    let mut up = Upstream {
        exchanges: 0,
        fetches: 0,
        token_answers: vec![token_body("T0", NOW - 1000), token_body("T1", NOW + 3_600_000)],
    };
    let first = get_lyrics(&mut c, &mut up, "abc123", NOW, 200, "{\"lyrics\":{\"lines\":[]}}");
    assert!(first.is_ok());
    assert_eq!(up.exchanges, 1);
    let second = get_lyrics(&mut c, &mut up, "abc123", NOW, 200, "{\"lyrics\":{\"lines\":[]}}");
    assert!(second.is_ok());
    assert_eq!(up.exchanges, 2);
    assert_eq!(c.cached_token(0).unwrap().token, "T1");
}

#[test]
fn authorize_without_keys_admits_everyone() {
    assert_eq!(authorize(&None, None), Ok(()));
    assert_eq!(authorize(&None, Some("junk")), Ok(()));
}

#[test]
fn authorize_checks_bearer_key() {
    let keys = Some(vec!["k1".to_string(), "k2".to_string()]);
    assert_eq!(authorize(&keys, Some("Bearer k2")), Ok(()));
    assert_eq!(authorize(&keys, None), Err(AuthError::MissingAuthorization));
    assert_eq!(authorize(&keys, Some("Basic k1")), Err(AuthError::MissingAuthorization));
    assert_eq!(authorize(&keys, Some("Bearer k3")), Err(AuthError::InvalidApiKey));
    assert_eq!(authorize(&keys, Some("Bearer ")), Err(AuthError::InvalidApiKey));
}

#[test]
fn response_fields_reads_members() {
    let (t, e) = response_fields("{\"accessToken\":\"abc\",\"accessTokenExpirationTimestampMs\":1234,\"isAnonymous\":false}");
    assert_eq!(t, Some("abc".to_string()));
    assert_eq!(e, Some(1234));
    assert_eq!(response_fields("[1,2]"), (None, None));
    assert_eq!(response_fields("{"), (None, None));
    assert_eq!(
        response_fields("{\"accessToken\":null,\"accessTokenExpirationTimestampMs\":1.5}"),
        (None, None)
    );
}

#[test]
fn diagnostics_name_the_failure() {
    assert_eq!(ClientError::NoCredentialsConfigured.diagnostic(), "no credentials configured");
    assert_eq!(ClientError::UpstreamUnavailable.diagnostic(), "upstream unavailable");
    assert_eq!(ClientError::MalformedUpstreamResponse.diagnostic(), "malformed upstream response");
    assert_eq!(
        ClientError::UpstreamRequestFailed { status: 404 }.diagnostic(),
        "upstream request failed"
    );
}

#[test]
fn each_credential_has_its_own_slot() {
    let mut c = SpotifyClient::new(vec!["a".to_string(), "b".to_string()]).unwrap();
    c.complete_exchange(1, 200, &token_body("TB", NOW + 100)).unwrap();
    assert!(c.cached_token(0).is_none());
    assert!(matches!(c.plan(0, NOW), TokenStep::Exchange(_)));
    assert!(matches!(c.plan(1, NOW), TokenStep::Ready(t) if t == "TB"));
}

#[test]
fn second_call_uses_the_fresh_token() {
    let mut c = client_a();
    c.store_token(0, AccessToken { token: "T1".to_string(), expires_at: NOW - 1000 });
    let req = c
        .resume_after_exchange(0, 200, &token_body("T2", NOW + 3_600_000), "abc123")
        .unwrap();
    let h = header_pairs(&req);
    assert_eq!(h[1], ("Authorization".to_string(), "Bearer T2".to_string()));
    let v = lyrics_from_response(200, "{\"lyrics\":{\"lines\":[{\"words\":\"x\"}]}}").unwrap();
    let expected: serde_json::Value = serde_json::from_str("{\"lines\":[{\"words\":\"x\"}]}").unwrap();
    assert_eq!(v, expected);
}

#[test]
fn duplicate_credentials_share_one_slot() {
    let mut c = SpotifyClient::new(vec![
        "a".to_string(),
        "b".to_string(),
        "a".to_string(),
        "c".to_string(),
        "b".to_string(),
    ])
    .unwrap();
    assert_eq!(c.credential_count(), 3);
    assert_eq!(c.credential(0), "a");
    assert_eq!(c.credential(1), "b");
    assert_eq!(c.credential(2), "c");
    c.complete_exchange(0, 200, &token_body("TA", NOW + 10)).unwrap();
    assert!(matches!(c.plan(0, NOW), TokenStep::Ready(t) if t == "TA"));
}

#[test]
fn token_endpoint_error_status_is_unavailable() {
    let mut c = client_a();
    c.store_token(0, AccessToken { token: "OLD".to_string(), expires_at: NOW - 1 });
    let r = c.complete_exchange(0, 401, &token_body("T1", NOW + 10));
    assert_eq!(r, Err(ClientError::UpstreamUnavailable));
    assert_eq!(c.cached_token(0).unwrap().token, "OLD");
    let r = c.resume_after_exchange(0, 503, "", "abc123");
    assert!(matches!(r, Err(ClientError::UpstreamUnavailable)));
}

#[test]
fn failed_exchange_ends_the_request() {
    let mut c = client_a();
    let r = c.resume_after_exchange(0, 200, "{\"accessToken\":\"T1\"}", "abc123");
    assert!(matches!(r, Err(ClientError::MalformedUpstreamResponse)));
    assert!(c.cached_token(0).is_none());
}

#[test]
fn start_lyrics_asks_for_exchange_then_fetch() {
    let mut c = client_a();
    let (slot, _, action) = c.start_lyrics("abc123");
    assert_eq!(slot, 0);
    assert!(matches!(action, LyricsAction::Exchange(_)));
    c.complete_exchange(0, 200, &token_body("T1", u64::MAX)).unwrap();
    match c.start_lyrics("abc123").2 {
        LyricsAction::Fetch(req) => {
            assert_eq!(
                req.url,
                "https://spclient.wg.spotify.com/color-lyrics/v2/track/abc123?format=json&market=from_token"
            );
            assert_eq!(header_pairs(&req)[1].1, "Bearer T1");
        }
        LyricsAction::Exchange(_) => panic!("the token is fresh"),
    }
}
