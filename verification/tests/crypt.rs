use ripfy_server::conf::Keys;
use ripfy_server::crypt::b64;
use ripfy_server::crypt::decode_signature;
use ripfy_server::crypt::error::Error;
use ripfy_server::crypt::gen_key::gen_private_key_pem;
use ripfy_server::crypt::passwd::gen_salt;
use ripfy_server::crypt::passwd::passwd_encrypt;
use ripfy_server::crypt::passwd::verify_encrypted_passwd;
use ripfy_server::crypt::sign_content;
use ripfy_server::crypt::verify_signature;

fn test_keys() -> Keys {
    let pem = gen_private_key_pem().unwrap();
    Keys::from_pem(pem.as_str()).unwrap()
}

#[test]
fn crypt_encrypted_passwd() {
    let passwd = "abcde123";
    let salt = gen_salt();

    let encrypted_passwd = passwd_encrypt(passwd, salt.as_str()).unwrap();
    let do_passwords_match = verify_encrypted_passwd(passwd, encrypted_passwd.as_str()).unwrap();
    let do_passwords_not_match =
        !verify_encrypted_passwd("ABCDE123", encrypted_passwd.as_str()).unwrap();

    assert!(do_passwords_match);
    assert!(do_passwords_not_match);
}

#[test]
fn simple_b64() {
    let word = "abcde".to_string();

    let b64_word = b64::encode("abcde".as_bytes());
    let decoded = b64::decode_to_string(b64_word.as_str()).unwrap();

    assert_eq!(word, decoded);
}

#[test]
fn signature() {
    let content = "Really cool message";
    let content_alt = "Reall cool message";
    let keys = test_keys();

    let signature_string = sign_content(content.into(), &keys).unwrap();
    let signature = decode_signature(signature_string.as_str()).unwrap();
    assert!(!signature.is_empty());

    assert!(verify_signature(content, signature_string.as_str(), &keys).is_ok());
    assert!(verify_signature(content_alt, signature_string.as_str(), &keys).is_err());
}

#[test]
fn b64_rejects_malformed_input() {
    // '=' padding is not part of the unpadded alphabet
    assert!(matches!(b64::decode("AB=="), Err(Error::DecodingError)));
    // a single symbol can never be a canonical encoding
    assert!(matches!(b64::decode("A"), Err(Error::DecodingError)));
    // valid alphabet, but the encoded bytes are not UTF-8
    let not_utf8 = b64::encode(&[0xff, 0xfe]);
    assert!(matches!(
        b64::decode_to_string(not_utf8.as_str()),
        Err(Error::DecodingError)
    ));
    // empty input is the canonical encoding of the empty byte string
    assert_eq!(b64::decode("").unwrap(), Vec::<u8>::new());
}

#[test]
fn passwd_rejects_bad_salt_and_hash() {
    assert!(passwd_encrypt("pwd", "!!!not a salt!!!").is_err());
    assert!(verify_encrypted_passwd("pwd", "not a phc string").is_err());
}

#[test]
fn hash_is_not_the_password() {
    let salt = gen_salt();
    let hash = passwd_encrypt("abcde123", salt.as_str()).unwrap();
    assert_ne!(hash, "abcde123");
    assert!(hash.starts_with('$'));
}
