pub mod b64;
pub mod error;
pub mod gen_key;
pub mod passwd;
pub mod token;

use rsa::signature::RandomizedSigner;
use rsa::signature::SignatureEncoding;
use rsa::signature::Verifier;
use vstd::prelude::*;

verus! {

use crate::conf::Keys;
use self::b64::b64_of;
use self::b64::is_b64url_seq;
use self::error::Error;

/// Whether the rsa crate accepts `sig` as the byte form of a PKCS#1 v1.5
/// signature.
pub uninterp spec fn sig_parseable(sig: Seq<u8>) -> bool;

/// Whether the keypair loaded from the PEM document `key` can produce
/// PKCS#1 v1.5 SHA-512 signatures at all: the scheme refuses a modulus
/// smaller than the padded digest, so signing succeeds or fails as a
/// function of the key alone.
pub uninterp spec fn key_can_sign(key: Seq<char>) -> bool;

/// Whether `sig` is a valid PKCS#1 v1.5 SHA-512 signature over the UTF-8
/// bytes of `content`, under the keypair loaded from the PEM document `key`.
pub uninterp spec fn rsa_verifies(key: Seq<char>, content: Seq<char>, sig: Seq<u8>) -> bool;

/// Relies on rsa's `SigningKey::<Sha512>::try_sign_with_rng` (PKCS#1 v1.5):
/// it fails exactly when the key cannot carry the scheme's padded digest —
/// a property of the key alone — and every signature it produces parses
/// back via `Signature::try_from` and verifies over the signed content
/// under the same keypair's verifying key. Nothing more is assumed of the
/// signature bytes, which may differ between calls.
#[verifier::external_body]
fn rsa_sign(keys: &Keys, content: &str) -> (r: Option<Vec<u8>>)
    ensures
        r is Some <==> key_can_sign(keys.id()),
        r matches Some(v) ==> sig_parseable(v@) && rsa_verifies(keys.id(), content@, v@),
{
    let mut rng = rand::thread_rng();
    match keys.pair.signing_key.try_sign_with_rng(&mut rng, content.as_bytes()) {
        Ok(signature) => Some(signature.to_vec()),
        Err(_) => None,
    }
}

/// Relies on rsa's `pkcs1v15::Signature::try_from`: whether byte content is
/// accepted as a signature is a deterministic function of the bytes.
#[verifier::external_body]
fn signature_parses(sig: &[u8]) -> (r: bool)
    ensures
        r == sig_parseable(sig@),
{
    rsa::pkcs1v15::Signature::try_from(sig).is_ok()
}

/// Relies on rsa's `Verifier::verify` for `VerifyingKey<Sha512>` (PKCS#1
/// v1.5): the outcome is a deterministic function of the key, the content
/// and the signature bytes.
#[verifier::external_body]
fn rsa_verify(keys: &Keys, content: &str, sig: &[u8]) -> (r: bool)
    requires
        sig_parseable(sig@),
    ensures
        r == rsa_verifies(keys.id(), content@, sig@),
{
    let signature = match rsa::pkcs1v15::Signature::try_from(sig) {
        Ok(s) => s,
        Err(_) => return false,
    };
    keys.pair.verifying_key.verify(content.as_bytes(), &signature).is_ok()
}

/// Receives a base64url encoded string slice and tries to decode it into
/// signature bytes accepted by the signature scheme.
pub fn decode_signature(encoded_signature: &str) -> (r: Result<Vec<u8>, Error>)
    ensures
        r is Ok <==> exists|b: Seq<u8>| b64_of(b) == encoded_signature@ && sig_parseable(b),
        r is Ok ==> b64_of(r->Ok_0@) == encoded_signature@ && sig_parseable(r->Ok_0@),
        r is Ok ==> forall|b: Seq<u8>| b64_of(b) == encoded_signature@ ==> b =~= r->Ok_0@,
        r is Err && (exists|b: Seq<u8>| b64_of(b) == encoded_signature@) ==> r->Err_0
            == Error::SignParsingFailed,
        r is Err && !(exists|b: Seq<u8>| b64_of(b) == encoded_signature@) ==> r->Err_0
            == Error::DecodingError,
{
    let bytes = b64::decode(encoded_signature)?;
    if signature_parses(bytes.as_slice()) {
        Ok(bytes)
    } else {
        assert forall|b: Seq<u8>|
            b64_of(b) == encoded_signature@ implies !sig_parseable(b) by {
            assert(b =~= bytes@);
        }
        Err(Error::SignParsingFailed)
    }
}

/// Signs the content and returns a base64url encoded string of the
/// signature. Fails, with the failure surfaced rather than a panic, exactly
/// when the loaded key cannot sign under the scheme — a condition fixed at
/// key-load time, never by the content.
pub fn sign_content(content: String, keys: &Keys) -> (r: Result<String, Error>)
    ensures
        r is Ok <==> key_can_sign(keys.id()),
        r matches Ok(s) ==> (exists|sb: Seq<u8>|
            s@ == b64_of(sb) && sig_parseable(sb) && rsa_verifies(keys.id(), content@, sb))
            && is_b64url_seq(s@),
        r is Err ==> r->Err_0 == Error::SigningFailed,
{
    let raw_signature = match rsa_sign(keys, content.as_str()) {
        Option::Some(v) => v,
        Option::None => {
            return Err(Error::SigningFailed);
        },
    };
    Ok(b64::encode(raw_signature.as_slice()))
}

/// Checks a base64url-encoded signature against content under the keypair:
/// it succeeds exactly when the segment decodes to signature bytes the
/// scheme parses and those bytes verify over the content.
pub fn verify_signature(content: &str, encoded_signature: &str, keys: &Keys) -> (r: Result<
    (),
    Error,
>)
    ensures
        r is Ok <==> exists|sb: Seq<u8>|
            b64_of(sb) == encoded_signature@ && sig_parseable(sb) && rsa_verifies(
                keys.id(),
                content@,
                sb,
            ),
        r matches Err(e) ==> e == Error::DecodingError || e == Error::SignParsingFailed || e
            == Error::InvalidTokenSignature,
{
    let signature = match decode_signature(encoded_signature) {
        Ok(s) => s,
        Err(e) => {
            assert forall|sb: Seq<u8>|
                b64_of(sb) == encoded_signature@ implies !sig_parseable(sb) by {
                if sig_parseable(sb) {
                    assert(exists|b: Seq<u8>| b64_of(b) == encoded_signature@ && sig_parseable(b));
                }
            }
            return Err(e);
        },
    };
    if rsa_verify(keys, content, signature.as_slice()) {
        Ok(())
    } else {
        assert forall|sb: Seq<u8>|
            b64_of(sb) == encoded_signature@ && sig_parseable(sb) implies !rsa_verifies(
            keys.id(),
            content@,
            sb,
        ) by {
            assert(sb =~= signature@);
        }
        Err(Error::InvalidTokenSignature)
    }
}

/// Law: whenever the key can sign at all, a signature produced over some
/// content verifies over that same content under the same keypair.
pub fn sign_then_verify(content: &str, keys: &Keys) -> (r: Result<(), Error>)
    ensures
        r is Ok <==> key_can_sign(keys.id()),
{
    let signature_string = match sign_content(content.to_owned(), keys) {
        Ok(s) => s,
        Err(e) => {
            return Err(e);
        },
    };
    verify_signature(content, signature_string.as_str(), keys)
}

} // verus!
