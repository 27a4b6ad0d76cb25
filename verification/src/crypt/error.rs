use vstd::prelude::*;

verus! {

/// Failures of the codec, the signer/verifier and token validation.
#[derive(Clone, Copy, Debug, PartialEq, Eq, Structural)]
pub enum Error {
    /// Base64url decoding failed, or the decoded bytes were not valid UTF-8.
    DecodingError,
    /// A token string did not have the three dot-separated segments, or its
    /// first segment carried no recognised kind tag.
    TokenInvalidFormat,
    /// A fresh private key could not be generated or serialized.
    KeyGenFailed,
    /// The signature scheme rejected the signing request; with PKCS#1 v1.5
    /// this means the loaded key's modulus is too small for the digest.
    SigningFailed,
    /// The signature bytes could not be parsed into the scheme's format.
    SignParsingFailed,
    /// An expiration timestamp could not be formatted or parsed.
    FailedToGetTime,
    /// The token identifier was rejected by the issuer.
    InvalidTokenIdentifier,
    /// The signature does not match the token's signed content.
    InvalidTokenSignature,
    /// The token's expiration is not in the future.
    ExpiredTokenError,
    /// A refresh token was presented where an access token is required.
    NotAnAccessTokenError,
}

impl Error {
    /// A short description, in place of a `Display` implementation.
    pub fn message(&self) -> &'static str {
        match self {
            Error::DecodingError => "could not decode base64url data",
            Error::TokenInvalidFormat => "token is not in the expected format",
            Error::KeyGenFailed => "could not generate a private key",
            Error::SigningFailed => "the key cannot sign under this scheme",
            Error::SignParsingFailed => "could not parse the signature bytes",
            Error::FailedToGetTime => "could not parse or format a timestamp",
            Error::InvalidTokenIdentifier => "the token identifier is invalid",
            Error::InvalidTokenSignature => "the token signature does not match its content",
            Error::ExpiredTokenError => "the token is expired",
            Error::NotAnAccessTokenError => "the token is not an access token",
        }
    }
}

} // verus!
