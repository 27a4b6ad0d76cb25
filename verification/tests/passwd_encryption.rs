use ripfy_server::crypt::passwd::gen_salt;
use ripfy_server::crypt::passwd::passwd_encrypt;
use ripfy_server::crypt::passwd::verify_encrypted_passwd;

#[test]
fn passwd_encryption_encrypted_passwd() {
    let passwd = "abcde123";
    let salt = gen_salt();

    let encrypted_passwd = passwd_encrypt(passwd, salt.as_str()).unwrap();
    let do_passwords_match = verify_encrypted_passwd(passwd, encrypted_passwd.as_str()).unwrap();
    let do_passwords_not_match =
        !verify_encrypted_passwd("ABCDE123", encrypted_passwd.as_str()).unwrap();

    assert!(do_passwords_match);
    assert!(do_passwords_not_match);
}
