use rsa::pkcs1::DecodeRsaPrivateKey;
use rsa::signature::Keypair;
use vstd::prelude::*;

verus! {

use crate::crypt::error::Error;

/// Whether the rsa crate can read `pem` as a PKCS#1-encoded RSA private key.
pub uninterp spec fn pem_parses(pem: Seq<char>) -> bool;

/// The parsed rsa key objects. Verus cannot declare their types (they alias
/// into `digest`'s type-level machinery), so the pair is held opaquely; every
/// contract about it is stated over the PEM document it was parsed from.
#[verifier::external_body]
pub(crate) struct RsaKeyPair {
    pub(crate) signing_key: rsa::pkcs1v15::SigningKey<rsa::sha2::Sha512>,
    pub(crate) verifying_key: rsa::pkcs1v15::VerifyingKey<rsa::sha2::Sha512>,
}

/// The process keypair: a PKCS#1 v1.5 signing key over SHA-512 and the
/// verifying key derived from it. The PEM document the pair was loaded from
/// identifies the keypair in every signing and verification contract.
pub struct Keys {
    pub(crate) pair: RsaKeyPair,
    pem: String,
}

impl Keys {
    /// The PEM document this keypair was loaded from; contracts about
    /// signing and verification are stated over it.
    pub closed spec fn id(&self) -> Seq<char> {
        self.pem@
    }

    /// Loads a keypair from a PKCS#1 PEM private-key document.
    ///
    /// Relies on rsa's `DecodeRsaPrivateKey::from_pkcs1_pem`, on
    /// `SigningKey::new` and on `SigningKey::verifying_key`: whether a PEM
    /// document parses is a deterministic function of its text, and the
    /// verifying key is derived from the private key alone.
    #[verifier::external_body]
    pub fn from_pem(pem: &str) -> (r: Result<Keys, Error>)
        ensures
            r is Ok <==> pem_parses(pem@),
            r is Ok ==> r->Ok_0.id() == pem@,
            r is Err ==> r->Err_0 == Error::KeyGenFailed,
    {
        let private_key = match rsa::RsaPrivateKey::from_pkcs1_pem(pem) {
            Ok(k) => k,
            Err(_) => return Err(Error::KeyGenFailed),
        };
        let signing_key = rsa::pkcs1v15::SigningKey::<rsa::sha2::Sha512>::new(private_key);
        let verifying_key = signing_key.verifying_key();
        Ok(Keys { pair: RsaKeyPair { signing_key, verifying_key }, pem: pem.to_string() })
    }
}

/// Process configuration. The process constructs one `Config` at start (the
/// defaults below, possibly overridden by the host program) and passes it by
/// reference into every component that needs it.
pub struct Config {
    pub db_location: String,
    pub private_key_path: String,
    pub access_token_duration_secs: u64,
    pub refresh_token_duration_secs: u64,
    pub yt_dlp_binary_path: String,
    pub yt_dlp_output_path: String,
    pub yt_dlp_timeout_milisecs: u64,
    pub port: u16,
}

// fallback default values for each config
impl Default for Config {
    fn default() -> (c: Self)
        ensures
            c.db_location@ == "ripfy.sqlite"@,
            c.private_key_path@ == "key.pem"@,
            c.access_token_duration_secs == 1800,
            c.refresh_token_duration_secs == 604800,
            c.yt_dlp_binary_path@ == "yt-dlp"@,
            c.yt_dlp_output_path@ == "media"@,
            c.yt_dlp_timeout_milisecs == 30000,
            c.port == 7717,
    {
        Config {
            db_location: "ripfy.sqlite".to_owned(),
            private_key_path: "key.pem".to_owned(),
            access_token_duration_secs: 1800,  // 30 minutes
            refresh_token_duration_secs: 604800,  // 1 week
            yt_dlp_binary_path: "yt-dlp".to_owned(),  // assumes the binary is on PATH
            yt_dlp_output_path: "media".to_owned(),  // directory where media is written
            yt_dlp_timeout_milisecs: 30000,  // 30 seconds
            port: 7717,
        }
    }
}

/// The default configuration. The host program may merge a configuration
/// file over these values before handing the result to the library.
pub fn config() -> (c: Config)
    ensures
        c.db_location@ == "ripfy.sqlite"@,
        c.private_key_path@ == "key.pem"@,
        c.access_token_duration_secs == 1800,
        c.refresh_token_duration_secs == 604800,
        c.yt_dlp_binary_path@ == "yt-dlp"@,
        c.yt_dlp_output_path@ == "media"@,
        c.yt_dlp_timeout_milisecs == 30000,
        c.port == 7717,
{
    Config::default()
}

} // verus!
