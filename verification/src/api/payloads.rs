use vstd::prelude::*;

verus! {

/// The login and signup request body: a username and a plaintext password.
#[derive(Clone, Debug)]
pub struct AuthPayload {
    pub username: String,
    pub pwd: String,
}

/// The refresh request body: a serialized refresh token.
#[derive(Clone, Debug)]
pub struct AuthTokenPayload {
    pub auth_token: String,
}

} // verus!
