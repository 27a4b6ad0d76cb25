use rsa::pkcs1::EncodeRsaPrivateKey;
use vstd::prelude::*;

verus! {

use crate::conf::pem_parses;
use super::error::Error;
use super::key_can_sign;

/// Generates a fresh RSA private key and returns its PKCS#1 PEM document.
///
/// Relies on rsa's `RsaPrivateKey::new` and
/// `EncodeRsaPrivateKey::to_pkcs1_pem`: the key is drawn from a
/// cryptographically secure random source, and any document the encoder
/// produces is read back by the PKCS#1 PEM parser. The 1024-bit modulus
/// sits comfortably above the 94 bytes PKCS#1 v1.5 needs for a padded
/// SHA-512 digest, so a generated key can always sign. The host program
/// decides where the document is persisted.
#[verifier::external_body]
pub fn gen_private_key_pem() -> (r: Result<String, Error>)
    ensures
        r is Ok ==> pem_parses(r->Ok_0@),
        r is Ok ==> key_can_sign(r->Ok_0@),
        r is Err ==> r->Err_0 == Error::KeyGenFailed,
{
    let mut rng = rand::thread_rng();
    let bits: usize = 1024;
    let private_key = match rsa::RsaPrivateKey::new(&mut rng, bits) {
        Ok(k) => k,
        Err(_) => return Err(Error::KeyGenFailed),
    };
    match private_key.to_pkcs1_pem(rsa::pkcs1::LineEnding::LF) {
        Ok(pem) => Ok(pem.to_string()),
        Err(_) => Err(Error::KeyGenFailed),
    }
}

} // verus!
