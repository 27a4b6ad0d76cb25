pub mod auth;
pub mod error;
pub mod mw;
pub mod payloads;

use vstd::prelude::*;

verus! {

/// The uniform response envelope every endpoint answers with.
pub struct ResponseModel<T> {
    pub success: bool,
    pub data: Option<T>,
    pub error: Option<String>,
}

/// The payload of a successful login or refresh: the serialized token pair.
pub struct AuthModel {
    pub access_token: String,
    pub refresh_token: String,
}

} // verus!
