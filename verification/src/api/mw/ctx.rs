use vstd::prelude::*;

verus! {

use crate::conf::Keys;
use crate::context::Ctx;
use crate::crypt::key_can_sign;
use crate::crypt::error::Error as CryptError;
use crate::crypt::token::Token;
use crate::crypt::token::TokenKind;
use crate::crypt::token::token_signature_ok;
use crate::crypt::token::wellformed_wire;
use crate::crypt::token::wire;
use crate::crypt::token::wire_parts_ok;
use crate::util::time::rfc3339_parse_of;
use super::super::error::Error;

/// Whether the fields form a signed, unexpired token of the given kind
/// under the keypair `key` at the moment `now`.
pub open spec fn spec_token_accepted(
    key: Seq<char>,
    kind: TokenKind,
    identifier: Seq<char>,
    expiration: Seq<char>,
    signature: Seq<char>,
    now: int,
) -> bool {
    token_signature_ok(key, kind, identifier, expiration, signature) && (
    match rfc3339_parse_of(expiration) {
        Option::Some(t) => t > now,
        Option::None => false,
    })
}

/// Whether `s` is the wire form of an accepted access token whose
/// identifier is `id`.
pub open spec fn spec_access_wire(key: Seq<char>, s: Seq<char>, id: Seq<char>, now: int) -> bool {
    exists|e: Seq<char>, g: Seq<char>|
        wire_parts_ok(TokenKind::Access, id, e, g) && s == #[trigger] wire(
            TokenKind::Access,
            id,
            e,
            g,
        ) && spec_token_accepted(key, TokenKind::Access, id, e, g, now)
}

/// Resolves the identity context for one inbound request, from the bearer
/// token string extracted from its authorization header.
///
/// The resolution runs once per request, before route dispatch, and aborts
/// nothing: its outcome — a context, or the recorded failure — is attached
/// to the request for [`ctx_require_auth`] to inspect on protected routes.
/// A context is produced exactly for a well-formed, correctly signed,
/// unexpired access token; a refresh token is rejected here, so it cannot
/// stand in for a logged-in user.
pub fn ctx_resolver(bearer: Option<&String>, keys: &Keys, now: i64) -> (r: Result<Ctx, Error>)
    ensures
        bearer is None <==> (r matches Err(e) && e matches Error::NoAuthToken),
        r matches Ok(c) ==> (bearer is Some && spec_access_wire(
            keys.id(),
            bearer->0@,
            c@,
            now as int,
        )),
        bearer matches Some(s) ==> forall|k: TokenKind, i: Seq<char>, e: Seq<char>, g: Seq<char>|
            wire_parts_ok(k, i, e, g) && s@ == #[trigger] wire(k, i, e, g)
                && spec_token_accepted(keys.id(), k, i, e, g, now as int) ==> (match k {
                TokenKind::Access => r matches Ok(ctx) && ctx@ == i,
                TokenKind::Refresh => r matches Err(err) && err matches Error::TokenError(ce)
                    && ce == CryptError::NotAnAccessTokenError,
            }),
        r matches Err(e) && !(e matches Error::NoAuthToken) ==> bearer is Some,
{
    let token_str = match bearer {
        Option::None => {
            return Err(Error::NoAuthToken);
        },
        Option::Some(s) => s,
    };
    let token = match Token::parse(token_str.as_str()) {
        Ok(t) => t,
        Err(e) => {
            return Err(Error::TokenError(e));
        },
    };
    match token.validate(keys, now) {
        Ok(()) => {},
        Err(e) => {
            return Err(Error::TokenError(e));
        },
    }
    match token.is_access_token() {
        Ok(()) => {},
        Err(e) => {
            return Err(Error::TokenError(e));
        },
    }
    let ctx = Ctx::new(token.identifier.as_str());
    proof {
        assert(wire_parts_ok(TokenKind::Access, ctx@, token.expiration@, token.signature@));
        assert(token_str@ == wire(TokenKind::Access, ctx@, token.expiration@, token.signature@));
        assert(spec_token_accepted(
            keys.id(),
            TokenKind::Access,
            ctx@,
            token.expiration@,
            token.signature@,
            now as int,
        ));
        assert(bearer->0 == token_str);
        assert(spec_access_wire(keys.id(), bearer->0@, ctx@, now as int));
    }
    Ok(ctx)
}

/// Law: a freshly issued refresh token never authorizes a protected route.
/// Resolving it yields the not-an-access-token failure, and the guard then
/// denies the request.
pub fn refresh_token_not_authorized(keys: &Keys, config: &crate::conf::Config, now: i64) -> (r:
    Option<Result<Ctx, Error>>)
    requires
        config.refresh_token_duration_secs >= 1,
    ensures
        r matches Some(res) ==> res matches Err(e) && e matches Error::TokenError(ce) && ce
            == CryptError::NotAnAccessTokenError,
        r is None ==> !(crate::util::time::rfc3339_representable(
            now + config.refresh_token_duration_secs,
        ) && key_can_sign(keys.id())),
{
    let token = match Token::new_refresh_token(keys, config, now) {
        Ok(t) => t,
        Err(_) => {
            return None;
        },
    };
    let serialized = token.to_string();
    let resolved = ctx_resolver(Some(&serialized), keys, now);
    Some(ctx_require_auth(resolved))
}

/// The guard in front of protected routes: it passes the resolution outcome
/// through, and a request whose outcome carries an error is denied with
/// that error. Unprotected routes (login, signup, refresh) never consult
/// it.
pub fn ctx_require_auth(ctx: Result<Ctx, Error>) -> (r: Result<Ctx, Error>)
    ensures
        r == ctx,
{
    match ctx {
        Ok(c) => Ok(c),
        Err(e) => Err(e),
    }
}

} // verus!
