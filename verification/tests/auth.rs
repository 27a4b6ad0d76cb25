use ripfy_server::api::auth::login_flow;
use ripfy_server::api::auth::refresh_token_flow;
use ripfy_server::api::auth::signup_flow;
use ripfy_server::api::auth::UserRecord;
use ripfy_server::api::error::ClientError;
use ripfy_server::api::error::Error;
use ripfy_server::api::mw::ctx::ctx_require_auth;
use ripfy_server::api::mw::ctx::ctx_resolver;
use ripfy_server::conf::Keys;
use ripfy_server::config;
use ripfy_server::crypt::gen_key::gen_private_key_pem;
use ripfy_server::store::RefreshStore;

const NOW: i64 = 1_700_000_000;

fn test_keys() -> Keys {
    let pem = gen_private_key_pem().unwrap();
    Keys::from_pem(pem.as_str()).unwrap()
}

fn demo_user() -> UserRecord {
    let hash = signup_flow(None, "demo1passwd").unwrap();
    UserRecord { id: "user-demo-1".into(), username: "demo1".into(), passwd: hash }
}

#[test]
fn signup_rejects_taken_username() {
    let user = demo_user();
    assert!(matches!(
        signup_flow(Some(&user), "whatever"),
        Err(Error::UserAlreadyExists)
    ));
}

#[test]
fn login_rejects_bad_credentials() {
    let keys = test_keys();
    let conf = config();
    let mut store = RefreshStore::new();
    let user = demo_user();

    assert!(matches!(
        login_flow(None, "demo1passwd", &keys, &conf, &mut store, NOW),
        Err(Error::UserNotFound)
    ));
    assert!(matches!(
        login_flow(Some(&user), "wrongpasswd", &keys, &conf, &mut store, NOW),
        Err(Error::IncorrectPasswd)
    ));
}

#[test]
fn auth_tokens_usage() {
    let keys = test_keys();
    let conf = config();
    let mut store = RefreshStore::new();
    let user = demo_user();

    let (access, refresh) =
        login_flow(Some(&user), "demo1passwd", &keys, &conf, &mut store, NOW).unwrap();

    // the access token resolves to the user's identity
    let access_string = access.to_string();
    let ctx = ctx_resolver(Some(&access_string), &keys, NOW).unwrap();
    assert_eq!(ctx.user_id(), "user-demo-1");

    // the refresh token is rejected on protected routes
    let refresh_string = refresh.to_string();
    let resolved = ctx_resolver(Some(&refresh_string), &keys, NOW);
    assert!(ctx_require_auth(resolved).is_err());

    // no token at all is rejected as well
    let denied = ctx_require_auth(ctx_resolver(None, &keys, NOW));
    assert!(matches!(denied, Err(Error::NoAuthToken)));
}

#[test]
fn auth_tokens_refresh() {
    let keys = test_keys();
    let conf = config();
    let mut store = RefreshStore::new();
    let user = demo_user();

    let (_, refresh) =
        login_flow(Some(&user), "demo1passwd", &keys, &conf, &mut store, NOW).unwrap();
    let refresh_string = refresh.to_string();

    // first redemption succeeds and yields a brand-new pair for the user
    let (new_access, new_refresh) =
        refresh_token_flow(refresh_string.as_str(), &keys, &conf, &mut store, NOW).unwrap();
    assert_eq!(new_access.identifier, "user-demo-1");
    assert_ne!(new_refresh.identifier, refresh.identifier);

    // the old refresh token is single-use: a second redemption fails
    assert!(matches!(
        refresh_token_flow(refresh_string.as_str(), &keys, &conf, &mut store, NOW),
        Err(Error::InvalidRefreshToken)
    ));

    // the new refresh token is redeemable in its turn
    let new_refresh_string = new_refresh.to_string();
    assert!(refresh_token_flow(new_refresh_string.as_str(), &keys, &conf, &mut store, NOW).is_ok());
}

#[test]
fn access_token_cannot_refresh() {
    let keys = test_keys();
    let conf = config();
    let mut store = RefreshStore::new();
    let user = demo_user();

    let (access, _) =
        login_flow(Some(&user), "demo1passwd", &keys, &conf, &mut store, NOW).unwrap();
    let access_string = access.to_string();
    assert!(matches!(
        refresh_token_flow(access_string.as_str(), &keys, &conf, &mut store, NOW),
        Err(Error::InvalidRefreshToken)
    ));
}

#[test]
fn refresh_token_lapses_with_store_ttl() {
    let keys = test_keys();
    let conf = config();
    let mut store = RefreshStore::new();
    let user = demo_user();

    let (_, refresh) =
        login_flow(Some(&user), "demo1passwd", &keys, &conf, &mut store, NOW).unwrap();
    let refresh_string = refresh.to_string();

    // shorten the store entry's TTL to ten seconds: once it lapses, the
    // still-valid refresh token misses the store and cannot redeem
    store.set_ex(refresh.identifier.as_str(), user.id.as_str(), 10, NOW);
    assert!(matches!(
        refresh_token_flow(refresh_string.as_str(), &keys, &conf, &mut store, NOW + 10),
        Err(Error::InvalidRefreshToken)
    ));
}

#[test]
fn client_error_mapping() {
    assert_eq!(
        Error::IncorrectPasswd.parse_server_error_to_client(),
        (401, ClientError::LOGIN_FAIL)
    );
    assert_eq!(
        Error::UserNotFound.parse_server_error_to_client(),
        (401, ClientError::LOGIN_FAIL)
    );
    assert_eq!(
        Error::NoAuthToken.parse_server_error_to_client(),
        (401, ClientError::NO_AUTH)
    );
    assert_eq!(
        Error::InvalidRefreshToken.parse_server_error_to_client(),
        (400, ClientError::INVALID_BODY)
    );
    assert_eq!(
        Error::UserAlreadyExists.parse_server_error_to_client(),
        (409, ClientError::USERNAME_ALREADY_USED)
    );
    assert_eq!(
        Error::IOError.parse_server_error_to_client(),
        (500, ClientError::SERVICE_ERROR)
    );
    assert_eq!(ClientError::LOGIN_FAIL.as_str(), "LOGIN_FAIL");
}

#[test]
fn full_session_scenario() {
    let keys = test_keys();
    let conf = config();
    let mut store = RefreshStore::new();

    // signup, then login with the correct credentials
    let hash = signup_flow(None, "passwd").unwrap();
    let user = UserRecord { id: "user-1".into(), username: "user".into(), passwd: hash };
    let (access, refresh) =
        login_flow(Some(&user), "passwd", &keys, &conf, &mut store, NOW).unwrap();

    // the access token opens the protected route; the refresh token does not
    let access_string = access.to_string();
    let refresh_string = refresh.to_string();
    let ctx = ctx_require_auth(ctx_resolver(Some(&access_string), &keys, NOW)).unwrap();
    assert_eq!(ctx.user_id(), "user-1");
    assert!(ctx_require_auth(ctx_resolver(Some(&refresh_string), &keys, NOW)).is_err());

    // refreshing yields a new pair with a different refresh token ...
    let (_, newer_refresh) =
        refresh_token_flow(refresh_string.as_str(), &keys, &conf, &mut store, NOW).unwrap();
    assert_ne!(newer_refresh.identifier, refresh.identifier);

    // ... and the old refresh token is no longer redeemable
    assert!(matches!(
        refresh_token_flow(refresh_string.as_str(), &keys, &conf, &mut store, NOW),
        Err(Error::InvalidRefreshToken)
    ));
}
