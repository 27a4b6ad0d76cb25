use ripfy_server::conf::Keys;
use ripfy_server::config;
use ripfy_server::crypt::error::Error;
use ripfy_server::crypt::gen_key::gen_private_key_pem;
use ripfy_server::crypt::token::Token;
use ripfy_server::crypt::token::TokenKind;

const NOW: i64 = 1_700_000_000;

fn test_keys() -> Keys {
    let pem = gen_private_key_pem().unwrap();
    Keys::from_pem(pem.as_str()).unwrap()
}

#[test]
fn token() {
    let keys = test_keys();
    let conf = config();

    let access_token = Token::new_access_token("good guy", &keys, &conf, NOW).unwrap();
    access_token.validate(&keys, NOW).unwrap();

    let mut bad_token = Token::new_access_token("bad guy", &keys, &conf, NOW).unwrap();
    bad_token.identifier = "really good guy".into();
    assert!(bad_token.validate(&keys, NOW).is_err());

    let late = Token::new_access_token("really late guy", &keys, &conf, NOW).unwrap();
    let after_expiry = NOW + conf.access_token_duration_secs as i64;
    assert!(matches!(
        late.validate(&keys, after_expiry),
        Err(Error::ExpiredTokenError)
    ));
}

#[test]
fn round_trip_reproduces_fields() {
    let keys = test_keys();
    let conf = config();

    let token = Token::new_access_token("alice", &keys, &conf, NOW).unwrap();
    let parsed = Token::parse(token.to_string().as_str()).unwrap();
    assert_eq!(parsed.kind, TokenKind::Access);
    assert_eq!(parsed.identifier, token.identifier);
    assert_eq!(parsed.expiration, token.expiration);
    assert_eq!(parsed.signature, token.signature);

    let refresh = Token::new_refresh_token(&keys, &conf, NOW).unwrap();
    let parsed = Token::parse(refresh.to_string().as_str()).unwrap();
    assert_eq!(parsed.kind, TokenKind::Refresh);
    assert_eq!(parsed.identifier, refresh.identifier);
}

#[test]
fn tampered_serialization_never_validates() {
    let keys = test_keys();
    let conf = config();

    let token = Token::new_access_token("alice", &keys, &conf, NOW).unwrap();
    let serialized = token.to_string();
    let segments: Vec<&str> = serialized.split('.').collect();
    assert_eq!(segments.len(), 3);

    // mutate each character of the identifier and expiration segments in turn
    for segment_index in 0..2 {
        let offset: usize = segments[..segment_index].iter().map(|s| s.len() + 1).sum();
        for i in 0..segments[segment_index].len() {
            let mut chars: Vec<char> = serialized.chars().collect();
            let old = chars[offset + i];
            chars[offset + i] = if old == 'A' { 'B' } else { 'A' };
            if chars[offset + i] == old {
                continue;
            }
            let mutated: String = chars.into_iter().collect();
            let outcome = match Token::parse(mutated.as_str()) {
                Ok(t) => t.validate(&keys, NOW),
                Err(e) => Err(e),
            };
            assert!(outcome.is_err());
        }
    }
}

#[test]
fn expiry_boundary() {
    let keys = test_keys();
    let conf = config();
    let expires_at = NOW + conf.access_token_duration_secs as i64;

    let token = Token::new_access_token("alice", &keys, &conf, NOW).unwrap();
    // just before expiry: valid, with a two-second margin
    assert!(token.validate(&keys, expires_at - 1).is_ok());
    assert!(token.validate(&keys, expires_at - 2).is_ok());
    // expiration equal to now, or in the past: expired
    assert!(matches!(
        token.validate(&keys, expires_at),
        Err(Error::ExpiredTokenError)
    ));
    assert!(matches!(
        token.validate(&keys, expires_at + 2),
        Err(Error::ExpiredTokenError)
    ));
}

#[test]
fn parse_rejects_malformed_strings() {
    assert!(matches!(
        Token::parse("only.two"),
        Err(Error::TokenInvalidFormat)
    ));
    assert!(matches!(
        Token::parse("a.b.c.d"),
        Err(Error::TokenInvalidFormat)
    ));
    assert!(matches!(
        Token::parse("!!!.###.sig"),
        Err(Error::DecodingError)
    ));
    // decodes, but carries no kind tag
    let plain = ripfy_server::crypt::b64::encode("alice".as_bytes());
    let wire = format!("{}.{}.sig", plain, plain);
    assert!(matches!(
        Token::parse(wire.as_str()),
        Err(Error::TokenInvalidFormat)
    ));
}

#[test]
fn wrong_key_never_validates() {
    let keys = test_keys();
    let other_keys = test_keys();
    let conf = config();

    let token = Token::new_access_token("alice", &keys, &conf, NOW).unwrap();
    assert!(token.validate(&keys, NOW).is_ok());
    assert!(matches!(
        token.validate(&other_keys, NOW),
        Err(Error::InvalidTokenSignature)
    ));
}

#[test]
fn signed_content_follows_fields() {
    let keys = test_keys();
    let conf = config();
    let token = Token::new_access_token("alice", &keys, &conf, NOW).unwrap();
    let mut altered = token.clone();
    altered.identifier = "mallory".into();

    let (original, same) = Token::signed_content_binds_fields(&token, &token.clone());
    assert_eq!(original, same);
    let (original, changed) = Token::signed_content_binds_fields(&token, &altered);
    assert_ne!(original, changed);
}

#[test]
fn refresh_identifier_is_opaque() {
    let keys = test_keys();
    let conf = config();
    let refresh = Token::new_refresh_token(&keys, &conf, NOW).unwrap();
    let again = Token::new_refresh_token(&keys, &conf, NOW).unwrap();
    assert_eq!(refresh.identifier.len(), 36);
    for (i, c) in refresh.identifier.chars().enumerate() {
        if i == 8 || i == 13 || i == 18 || i == 23 {
            assert_eq!(c, '-');
        } else {
            assert!(c.is_ascii_hexdigit() && !c.is_ascii_uppercase());
        }
    }
    assert_ne!(refresh.identifier, again.identifier);
}
