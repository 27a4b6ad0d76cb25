use vstd::prelude::*;

verus! {

use crate::conf::Config;
use crate::conf::Keys;
use crate::crypt::error::Error as CryptError;
use crate::crypt::passwd::PasswdError;
use crate::crypt::passwd::argon2_hash_of;
use crate::crypt::passwd::argon2_verify_of;
use crate::crypt::passwd::gen_salt;
use crate::crypt::passwd::passwd_encrypt;
use crate::crypt::passwd::phc_parseable;
use crate::crypt::passwd::salt_ok;
use crate::crypt::passwd::verify_encrypted_passwd;
use crate::crypt::key_can_sign;
use crate::crypt::token::Token;
use crate::crypt::token::TokenKind;
use crate::crypt::token::dotfree;
use crate::crypt::token::is_uuid_hyphenated;
use crate::crypt::token::spec_pair_issue_error;
use crate::crypt::token::token_signature_ok;
use crate::crypt::token::wellformed_wire;
use crate::crypt::token::wire;
use crate::crypt::token::wire_parts_ok;
use crate::store::RefreshStore;
use crate::util::time::rfc3339_parse_of;
use crate::util::time::rfc3339_representable;
use super::error::Error;
use super::mw::ctx::spec_token_accepted;

/// A credential record as the user store holds it: the user id, the
/// username, and the password hash in its PHC form.
#[derive(Clone, Debug)]
pub struct UserRecord {
    pub id: String,
    pub username: String,
    pub passwd: String,
}

/// What a successful issuance promises of the pair: an access token bound
/// to `user`, and a refresh token with a fresh opaque identifier, both
/// signed and stamped relative to `now`.
pub open spec fn spec_pair_ok(
    key: Seq<char>,
    user: Seq<char>,
    access: Token,
    refresh: Token,
    config: Config,
    now: int,
) -> bool {
    &&& access.kind == TokenKind::Access
    &&& access.identifier@ == user
    &&& rfc3339_parse_of(access.expiration@) == Option::Some(
        now + config.access_token_duration_secs,
    )
    &&& token_signature_ok(key, access.kind, access.identifier@, access.expiration@,
        access.signature@)
    &&& dotfree(access.signature@)
    &&& refresh.kind == TokenKind::Refresh
    &&& is_uuid_hyphenated(refresh.identifier@)
    &&& rfc3339_parse_of(refresh.expiration@) == Option::Some(
        now + config.refresh_token_duration_secs,
    )
    &&& token_signature_ok(key, refresh.kind, refresh.identifier@, refresh.expiration@,
        refresh.signature@)
    &&& dotfree(refresh.signature@)
}

/// The credential decision behind login: the user must exist and the
/// password must verify against the stored hash; on success the user id to
/// issue tokens for is handed back.
pub fn login_decision(user: Option<&UserRecord>, pwd: &str) -> (r: Result<String, Error>)
    ensures
        user is None <==> (r matches Err(e) && e matches Error::UserNotFound),
        user matches Some(u) && !phc_parseable(u.passwd@) <==> (r matches Err(e) && e matches
            Error::PasswdCryptError(pe) && pe == PasswdError::InvalidHashString),
        user matches Some(u) && phc_parseable(u.passwd@) && !argon2_verify_of(pwd@, u.passwd@)
            <==> (r matches Err(e) && e matches Error::IncorrectPasswd),
        user matches Some(u) && phc_parseable(u.passwd@) && argon2_verify_of(pwd@, u.passwd@)
            <==> (r matches Ok(id) && id@ == user->0.id@),
{
    let u = match user {
        Option::None => {
            return Err(Error::UserNotFound);
        },
        Option::Some(u) => u,
    };
    let is_passwd_correct = match verify_encrypted_passwd(pwd, u.passwd.as_str()) {
        Ok(b) => b,
        Err(e) => {
            return Err(Error::PasswdCryptError(e));
        },
    };
    if !is_passwd_correct {
        return Err(Error::IncorrectPasswd);
    }
    Ok(u.id.clone())
}

/// The login decision: the user must exist and the password must verify
/// against the stored hash; then a fresh token pair is issued and the
/// refresh identifier is recorded in the store with a fresh TTL, bound to
/// the user id.
pub fn login_flow(
    user: Option<&UserRecord>,
    pwd: &str,
    keys: &Keys,
    config: &Config,
    store: &mut RefreshStore,
    now: i64,
) -> (r: Result<(Token, Token), Error>)
    ensures
        user is None ==> (r matches Err(e) && e matches Error::UserNotFound && *final(store)
            == *old(store)),
        user matches Some(u) && !phc_parseable(u.passwd@) ==> (r matches Err(e) && (e matches
            Error::PasswdCryptError(pe) && pe == PasswdError::InvalidHashString) && *final(store)
            == *old(store)),
        user matches Some(u) && phc_parseable(u.passwd@) && !argon2_verify_of(pwd@, u.passwd@)
            ==> (r matches Err(e) && e matches Error::IncorrectPasswd && *final(store) == *old(store)),
        user matches Some(u) && phc_parseable(u.passwd@) && argon2_verify_of(pwd@, u.passwd@)
            && !(rfc3339_representable(now + config.access_token_duration_secs)
            && rfc3339_representable(now + config.refresh_token_duration_secs) && key_can_sign(
            keys.id(),
        )) ==> (r matches Err(e) && (e matches Error::TokenError(ce) && ce
            == spec_pair_issue_error(keys.id(), *config, now as int)) && *final(store) == *old(store)),
        user matches Some(u) && phc_parseable(u.passwd@) && argon2_verify_of(pwd@, u.passwd@)
            && rfc3339_representable(now + config.access_token_duration_secs)
            && rfc3339_representable(now + config.refresh_token_duration_secs) && key_can_sign(
            keys.id(),
        ) ==> (r matches Ok(pair) && spec_pair_ok(
            keys.id(),
            user->0.id@,
            pair.0,
            pair.1,
            *config,
            now as int,
        ) && final(store).contents() == old(store).contents().insert(
            pair.1.identifier@,
            (user->0.id@, now + config.refresh_token_duration_secs),
        )),
{
    let user_id = match login_decision(user, pwd) {
        Ok(id) => id,
        Err(e) => {
            return Err(e);
        },
    };
    let pair = match Token::new_token_pair(user_id.as_str(), keys, config, now) {
        Ok(p) => p,
        Err(e) => {
            return Err(Error::TokenError(e));
        },
    };
    let (access, refresh) = pair;
    store.set_ex(
        refresh.identifier.as_str(),
        user_id.as_str(),
        config.refresh_token_duration_secs,
        now,
    );
    Ok((access, refresh))
}

/// The signup decision: the username must be free; the password is then
/// hashed with a freshly generated salt, and the record to insert is handed
/// back to the caller. The plaintext never leaves the flow.
pub fn signup_flow(existing: Option<&UserRecord>, pwd: &str) -> (r: Result<String, Error>)
    ensures
        existing is Some ==> (r matches Err(e) && e matches Error::UserAlreadyExists),
        existing is None && vstd::utf8::encode_utf8(pwd@).len() <= 0xFFFFFFFF ==> (r matches Ok(h)
            && exists|salt: Seq<char>| salt_ok(salt) && h@ == #[trigger] argon2_hash_of(
            pwd@,
            salt,
        )),
        existing is None && vstd::utf8::encode_utf8(pwd@).len() <= 0xFFFFFFFF ==> (r matches Ok(h)
            && argon2_verify_of(pwd@, h@) && phc_parseable(h@)),
        existing is None && r is Err ==> r->Err_0 matches Error::PasswdCryptError(_),
    {
    if existing.is_some() {
        return Err(Error::UserAlreadyExists);
    }
    let salt = gen_salt();
    match passwd_encrypt(pwd, salt.as_str()) {
        Ok(hashed) => Ok(hashed),
        Err(e) => {
            // a generated salt is always accepted; only a password beyond
            // the hasher's byte cap lands here
            Err(Error::PasswdCryptError(e))
        },
    }
}

/// The store-independent first half of the refresh protocol: parse and
/// validate the presented token and reject anything that is not a refresh
/// token. On success it hands back the identifier to redeem atomically —
/// a host whose store lives across a network performs the redemption
/// itself and feeds the outcome to [`redeemed_user`].
pub fn check_refresh_token(auth_token: &str, keys: &Keys, now: i64) -> (r: Result<String, Error>)
    ensures
        !wellformed_wire(auth_token@) ==> (r matches Err(e) && e matches Error::TokenError(_)),
        forall|k: TokenKind, i: Seq<char>, e: Seq<char>, g: Seq<char>|
            wire_parts_ok(k, i, e, g) && auth_token@ == #[trigger] wire(k, i, e, g) ==> (
            if !spec_token_accepted(keys.id(), k, i, e, g, now as int) {
                r matches Err(err) && err matches Error::TokenError(_)
            } else if k == TokenKind::Access {
                r matches Err(err) && err matches Error::InvalidRefreshToken
            } else {
                r matches Ok(id) && id@ == i
            }),
{
    let token = match Token::parse(auth_token) {
        Ok(t) => t,
        Err(e) => {
            return Err(Error::TokenError(e));
        },
    };
    match token.validate(keys, now) {
        Ok(()) => {},
        Err(e) => {
            return Err(Error::TokenError(e));
        },
    }
    if token.is_access_token().is_ok() {
        return Err(Error::InvalidRefreshToken);
    }
    Ok(token.identifier)
}

/// The decision over a redemption outcome: a hit yields the bound user id,
/// a miss is an invalid refresh token.
pub fn redeemed_user(outcome: Option<String>) -> (r: Result<String, Error>)
    ensures
        r is Ok <==> outcome is Some,
        outcome matches Some(v) ==> (r matches Ok(id) && id == v),
        outcome is None ==> (r matches Err(e) && e matches Error::InvalidRefreshToken),
{
    match outcome {
        Option::Some(v) => Ok(v),
        Option::None => Err(Error::InvalidRefreshToken),
    }
}

/// The refresh-token rotation protocol: parse and validate the presented
/// token, reject anything that is not a refresh token, atomically redeem
/// its identifier from the store, and on a hit issue and record a brand-new
/// pair for the bound user. A miss — never issued, already consumed, or
/// lapsed — is indistinguishable from the outside: all yield
/// `InvalidRefreshToken`.
pub fn refresh_token_flow(
    auth_token: &str,
    keys: &Keys,
    config: &Config,
    store: &mut RefreshStore,
    now: i64,
) -> (r: Result<(Token, Token), Error>)
    ensures
        !wellformed_wire(auth_token@) ==> (r matches Err(e) && e matches Error::TokenError(_)
            && *final(store) == *old(store)),
        forall|k: TokenKind, i: Seq<char>, e: Seq<char>, g: Seq<char>|
            wire_parts_ok(k, i, e, g) && auth_token@ == #[trigger] wire(k, i, e, g) ==> (
            if !spec_token_accepted(keys.id(), k, i, e, g, now as int) {
                r matches Err(err) && err matches Error::TokenError(_) && *final(store) == *old(store)
            } else if k == TokenKind::Access {
                r matches Err(err) && err matches Error::InvalidRefreshToken && *final(store)
                    == *old(store)
            } else if !old(store).live(i, now as int) {
                r matches Err(err) && err matches Error::InvalidRefreshToken && final(store).contents() == old(store).contents().remove(i)
            } else if !(rfc3339_representable(now + config.access_token_duration_secs)
                && rfc3339_representable(now + config.refresh_token_duration_secs)
                && key_can_sign(keys.id())) {
                r matches Err(err) && (err matches Error::TokenError(ce) && ce
                    == spec_pair_issue_error(keys.id(), *config, now as int)) && final(store).contents() == old(store).contents().remove(i)
            } else {
                r matches Ok(pair) && spec_pair_ok(
                    keys.id(),
                    old(store).contents()[i].0,
                    pair.0,
                    pair.1,
                    *config,
                    now as int,
                ) && final(store).contents() == old(store).contents().remove(i).insert(
                    pair.1.identifier@,
                    (old(store).contents()[i].0, now + config.refresh_token_duration_secs),
                )
            }),
{
    let identifier = match check_refresh_token(auth_token, keys, now) {
        Ok(id) => id,
        Err(e) => {
            return Err(e);
        },
    };
    let user_id = match redeemed_user(store.get_del(identifier.as_str(), now)) {
        Ok(v) => v,
        Err(e) => {
            return Err(e);
        },
    };
    let pair = match Token::new_token_pair(user_id.as_str(), keys, config, now) {
        Ok(p) => p,
        Err(e) => {
            return Err(Error::TokenError(e));
        },
    };
    let (access, refresh) = pair;
    store.set_ex(
        refresh.identifier.as_str(),
        user_id.as_str(),
        config.refresh_token_duration_secs,
        now,
    );
    Ok((access, refresh))
}

/// Law: refresh tokens are single-use. Redeeming one token string twice in
/// a row can succeed at most once: whenever the first redemption succeeds,
/// the second fails with `InvalidRefreshToken` — except in the negligible
/// event that the freshly drawn refresh identifier collides with the old
/// one, which the conclusion states explicitly.
pub fn refresh_single_use(
    auth_token: &str,
    keys: &Keys,
    config: &Config,
    store: &mut RefreshStore,
    now: i64,
) -> (r: (Result<(Token, Token), Error>, Result<(Token, Token), Error>))
    ensures
        forall|k: TokenKind, i: Seq<char>, e: Seq<char>, g: Seq<char>|
            wire_parts_ok(k, i, e, g) && auth_token@ == #[trigger] wire(k, i, e, g) && (r.0
                matches Ok(first) && first.1.identifier@ != i) ==> (r.1 matches Err(err)
                && err matches Error::InvalidRefreshToken),
{
    let first = refresh_token_flow(auth_token, keys, config, store, now);
    let second = refresh_token_flow(auth_token, keys, config, store, now);
    (first, second)
}

/// Law: an access token presented to the refresh endpoint is rejected with
/// `InvalidRefreshToken` before the store is ever consulted.
pub fn access_token_not_refreshable(
    user: &str,
    keys: &Keys,
    config: &Config,
    store: &mut RefreshStore,
    now: i64,
) -> (r: Option<Result<(Token, Token), Error>>)
    requires
        config.access_token_duration_secs >= 1,
    ensures
        *final(store) == *old(store),
        r matches Some(res) ==> (res matches Err(e) && e matches Error::InvalidRefreshToken),
        r is None ==> !(rfc3339_representable(now + config.access_token_duration_secs)
            && key_can_sign(keys.id())),
{
    let token = match Token::new_access_token(user, keys, config, now) {
        Ok(t) => t,
        Err(_) => {
            return None;
        },
    };
    let serialized = token.to_string();
    Some(refresh_token_flow(serialized.as_str(), keys, config, store, now))
}

} // verus!
