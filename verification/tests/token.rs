use rust_lang_retweet::auth::ClientSettings;
use rust_lang_retweet::dynamo::{Attribute, GetItem, Item, PutItem, StoreError};
use rust_lang_retweet::token::{
    authorization_scopes, exchange_refresh_token, get_access_token, first_refresh_token, AccessCredential,
    ExchangeRequest, TokenError, TokenEvent, TokenGrant, TokenRefresh,
};

fn client() -> ClientSettings {
    ClientSettings::new(
        "aWQ6MTpjaQ".to_string(),
        "c2VjcmV0".to_string(),
        "https://example.com/callback".to_string(),
    )
}

fn stored(secret: &str) -> TokenEvent {
    TokenEvent::Fetched(Ok(Some(Item {
        attributes: vec![
            ("id".to_string(), Attribute::Text("refresh_token".to_string())),
            ("value".to_string(), Attribute::Text(secret.to_string())),
        ],
    })))
}

fn grant(access: &str, refresh: Option<&str>) -> TokenGrant {
    TokenGrant {
        access_token: access.to_string(),
        refresh_token: refresh.map(|r| r.to_string()),
        expires_in: Some(7200),
    }
}

fn exchange(secret: &str) -> ExchangeRequest {
    ExchangeRequest {
        client: client(),
        refresh_token: secret.to_string(),
        extra_params: vec![("client_id".to_string(), "aWQ6MTpjaQ".to_string())],
    }
}

fn put(secret: &str) -> PutItem {
    PutItem {
        table: "tokens".to_string(),
        item: vec![
            ("id".to_string(), Attribute::Text("refresh_token".to_string())),
            ("value".to_string(), Attribute::Text(secret.to_string())),
        ],
    }
}

fn begin() -> TokenRefresh {
    get_access_token(client(), &"tokens".to_string())
}

#[test]
fn a_refresh_starts_by_asking_the_store() {
    assert_eq!(
        begin(),
        TokenRefresh::Fetching {
            request: GetItem {
                table: "tokens".to_string(),
                key: vec![("id".to_string(), Attribute::Text("refresh_token".to_string()))],
            },
            client: client(),
        }
    );
    assert!(!begin().is_over());
}

#[test]
fn the_stored_credential_is_exchanged_with_the_client_id_as_an_extra_parameter() {
    assert_eq!(
        begin().advance(stored("old-refresh")),
        TokenRefresh::Exchanging { request: exchange("old-refresh"), table: "tokens".to_string() }
    );
    assert_eq!(exchange_refresh_token(client(), "old-refresh".to_string()), exchange("old-refresh"));
}

#[test]
fn a_rotated_credential_is_stored_before_access_is_given() {
    let step = begin().advance(stored("old-refresh"));
    let step = step.advance(TokenEvent::Exchanged(Ok(grant("access-1", Some("new-refresh")))));
    assert_eq!(
        step,
        TokenRefresh::Persisting {
            request: put("new-refresh"),
            access: AccessCredential { access_token: "access-1".to_string(), expires_in: Some(7200) },
        }
    );
    assert!(!step.is_over());
    let step = step.advance(TokenEvent::Persisted(Ok(())));
    assert_eq!(
        step,
        TokenRefresh::Done(AccessCredential {
            access_token: "access-1".to_string(),
            expires_in: Some(7200),
        })
    );
    assert!(step.is_over());
}

#[test]
fn a_grant_without_rotation_leaves_the_store_alone() {
    let step = begin().advance(stored("old-refresh"));
    let step = step.advance(TokenEvent::Exchanged(Ok(TokenGrant {
        access_token: "access-2".to_string(),
        refresh_token: None,
        expires_in: None,
    })));
    assert_eq!(
        step,
        TokenRefresh::Done(AccessCredential { access_token: "access-2".to_string(), expires_in: None })
    );
}

#[test]
fn a_rotation_that_cannot_be_stored_ends_the_refresh_without_access() {
    let step = begin().advance(stored("old-refresh"));
    let step = step.advance(TokenEvent::Exchanged(Ok(grant("access-3", Some("new-refresh")))));
    let step = step.advance(TokenEvent::Persisted(Err("ProvisionedThroughputExceeded".to_string())));
    assert_eq!(
        step,
        TokenRefresh::Failed(TokenError::Persist("ProvisionedThroughputExceeded".to_string()))
    );
    assert!(step.is_over());
}

#[test]
fn a_failed_exchange_ends_the_refresh_with_what_the_platform_said() {
    let payload = "ServerResponse(StandardErrorResponse { error: invalid_grant })";
    let step = begin().advance(stored("revoked"));
    let step = step.advance(TokenEvent::Exchanged(Err(payload.to_string())));
    assert_eq!(step, TokenRefresh::Failed(TokenError::Exchange(payload.to_string())));
}

#[test]
fn a_credential_that_cannot_be_read_ends_the_refresh() {
    assert_eq!(
        begin().advance(TokenEvent::Fetched(Ok(None))),
        TokenRefresh::Failed(TokenError::Fetch(StoreError::NotFound))
    );
    assert_eq!(
        begin().advance(TokenEvent::Fetched(Ok(Some(Item {
            attributes: vec![("value".to_string(), Attribute::Other)],
        })))),
        TokenRefresh::Failed(TokenError::Fetch(StoreError::NotText))
    );
    assert_eq!(
        begin().advance(TokenEvent::Fetched(Ok(Some(Item { attributes: vec![] })))),
        TokenRefresh::Failed(TokenError::Fetch(StoreError::NoValue))
    );
    assert_eq!(
        begin().advance(TokenEvent::Fetched(Err("credentials expired".to_string()))),
        TokenRefresh::Failed(TokenError::Fetch(StoreError::Unavailable(
            "credentials expired".to_string()
        )))
    );
}

#[test]
fn an_answer_out_of_turn_ends_the_refresh() {
    assert_eq!(
        begin().advance(TokenEvent::Persisted(Ok(()))),
        TokenRefresh::Failed(TokenError::OutOfTurn)
    );
    assert_eq!(
        begin().advance(TokenEvent::Exchanged(Ok(grant("a", None)))),
        TokenRefresh::Failed(TokenError::OutOfTurn)
    );
    assert_eq!(
        begin().advance(stored("s")).advance(stored("s")),
        TokenRefresh::Failed(TokenError::OutOfTurn)
    );
    let persisting = begin()
        .advance(stored("s"))
        .advance(TokenEvent::Exchanged(Ok(grant("a", Some("r")))));
    assert_eq!(
        persisting.advance(TokenEvent::Exchanged(Ok(grant("a", Some("r"))))),
        TokenRefresh::Failed(TokenError::OutOfTurn)
    );
}

#[test]
fn a_refresh_that_has_ended_stays_as_it_is() {
    let done = TokenRefresh::Done(AccessCredential { access_token: "a".to_string(), expires_in: None });
    assert_eq!(
        done.advance(stored("s")),
        TokenRefresh::Done(AccessCredential { access_token: "a".to_string(), expires_in: None })
    );
    let failed = TokenRefresh::Failed(TokenError::Exchange("no".to_string()));
    assert_eq!(
        failed.advance(TokenEvent::Persisted(Ok(()))),
        TokenRefresh::Failed(TokenError::Exchange("no".to_string()))
    );
}

#[test]
fn each_call_exchanges_what_the_store_holds_then() {
    let first = begin()
        .advance(stored("r0"))
        .advance(TokenEvent::Exchanged(Ok(grant("a1", Some("r1")))));
    let written = match first {
        TokenRefresh::Persisting { request, .. } => request.item,
        other => panic!("no rotation: {:?}", other),
    };
    let second = begin().advance(TokenEvent::Fetched(Ok(Some(Item { attributes: written }))));
    assert_eq!(
        second,
        TokenRefresh::Exchanging { request: exchange("r1"), table: "tokens".to_string() }
    );
}

#[test]
fn the_first_authorization_asks_for_four_scopes() {
    assert_eq!(
        authorization_scopes(),
        vec!["tweet.write", "tweet.read", "users.read", "offline.access"]
    );
}

#[test]
fn test_login() {
    assert_eq!(first_refresh_token(Ok(grant("access", Some("first-refresh")))), Ok("first-refresh".to_string()));
    assert_eq!(first_refresh_token(Ok(grant("access", None))), Err(TokenError::NoRefreshToken));
    assert_eq!(
        first_refresh_token(Err("Request(connection closed)".to_string())),
        Err(TokenError::Exchange("Request(connection closed)".to_string()))
    );
}

#[test]
fn token_errors_say_what_went_wrong() {
    assert_eq!(TokenError::NoRefreshToken.message(), "No refresh token provided");
    assert_eq!(TokenError::Fetch(StoreError::NotFound).message(), "Failed to download key");
    assert_eq!(TokenError::Exchange("invalid_grant".to_string()).message(), "invalid_grant");
    assert_eq!(TokenError::Persist("throttled".to_string()).message(), "throttled");
    assert_eq!(
        TokenError::OutOfTurn.message(),
        "An answer arrived for a request that was not outstanding"
    );
}
