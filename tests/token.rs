use toornament::{
    accept_token, accept_token_now, token_from_grant, AccessToken, Credentials, Error,
    OauthAccessToken, TokenCheck, TokenStore, REFRESH_FAILED,
};

fn grant(token: &str, expires_in: u64) -> OauthAccessToken {
    OauthAccessToken { access_token: token.to_owned(), expires_in }
}

fn json_failure() -> serde_json::Error {
    serde_json::from_str::<serde_json::Value>("unauthorized").unwrap_err()
}

#[test]
fn successful_construction() {
    let body = r#"{"access_token":"abc","expires_in":3600}"#.to_owned();
    let token = accept_token(200, body, Ok(grant("abc", 3600)), 1_000).unwrap();
    assert_eq!(token.expires, 4_600);
    let store = TokenStore::new(token);
    assert_eq!(store.current_token(), "abc");
    assert_eq!(store.expires(), 4_600);
}

#[test]
fn construction_failure() {
    let r = accept_token(401, "unauthorized".to_owned(), Err(json_failure()), 1_000);
    match r {
        Err(Error::Status(401, body)) => assert_eq!(body, "unauthorized"),
        other => panic!("unexpected {:?}", other),
    }
    let r = accept_token(401, "{}".to_owned(), Ok(grant("abc", 3600)), 1_000);
    assert!(matches!(r, Err(Error::Status(401, _))));
}

#[test]
fn undecodable_token_body_fails() {
    let r = accept_token(200, "unauthorized".to_owned(), Err(json_failure()), 1_000);
    assert!(matches!(r, Err(Error::Json(_))));
}

#[test]
fn token_issued_now_is_fresh() {
    let t = accept_token_now(200, String::new(), Ok(grant("xyz", 60))).unwrap();
    assert_eq!(t.access_token, "xyz");
    assert!(t.expires >= 60);
    let store = TokenStore::new(t);
    assert!(matches!(store.check_now(), TokenCheck::Valid(ref s) if s == "xyz"));
}

#[test]
fn expiry_saturates() {
    let t = token_from_grant(grant("t", u64::MAX), 10);
    assert_eq!(t.expires, u64::MAX);
    let t = token_from_grant(grant("t", 0), 10);
    assert_eq!(t.expires, 10);
}

#[test]
fn token_freshness() {
    let store = TokenStore::new(AccessToken { access_token: "old".to_owned(), expires: 100 });
    assert!(matches!(store.check(99), TokenCheck::Valid(ref s) if s == "old"));
    assert!(matches!(store.check(100), TokenCheck::Valid(ref s) if s == "old"));
    assert!(matches!(store.check(101), TokenCheck::Expired));
}

#[test]
fn refresh_replaces_the_whole_token() {
    let mut store = TokenStore::new(AccessToken { access_token: "old".to_owned(), expires: 100 });
    let ok = store.refresh_with(Ok(AccessToken { access_token: "new".to_owned(), expires: 900 }));
    assert!(ok);
    assert_eq!(store.current_token(), "new");
    assert_eq!(store.expires(), 900);
}

#[test]
fn failed_refresh_preserves_prior_token() {
    let mut store = TokenStore::new(AccessToken { access_token: "old".to_owned(), expires: 100 });
    let before = store.current_token();
    let ok = store.refresh_with(Err(Error::Rest("Can't get the token")));
    assert!(!ok);
    assert_eq!(store.current_token(), before);
    assert_eq!(store.expires(), 100);
}

#[test]
fn token_after_refresh_outcomes() {
    let store = TokenStore::new(AccessToken { access_token: "tok".to_owned(), expires: 1 });
    assert_eq!(store.token_after_refresh(true).unwrap(), "tok");
    match store.token_after_refresh(false) {
        Err(Error::Rest(m)) => assert_eq!(m, REFRESH_FAILED),
        other => panic!("unexpected {:?}", other),
    }
}

#[test]
fn token_request_form() {
    let c = Credentials::new("key".to_owned(), "id".to_owned(), "secret".to_owned());
    let form = c.token_form();
    assert_eq!(
        form,
        vec![
            ("grant_type".to_owned(), "client_credentials".to_owned()),
            ("client_id".to_owned(), "id".to_owned()),
            ("client_secret".to_owned(), "secret".to_owned()),
        ]
    );
}
