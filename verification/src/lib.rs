//! Self-issued bearer-token authentication core.
//!
//! The crate mints, serializes, signs, validates and rotates the tokens that
//! stand in for a logged-in identity: a base64url codec, an RSA-backed
//! signer/verifier, an Argon2 credential hasher, the token wire format, the
//! issuer, the single-use refresh-token rotation protocol over a TTL store,
//! and the request-context resolver that guards protected routes.
pub mod api;
pub mod conf;
pub mod context;
pub mod crypt;
pub mod util;

pub mod store;

pub use conf::config;
