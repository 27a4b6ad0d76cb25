use base64::Engine;
use vstd::prelude::*;

verus! {

use vstd::utf8::decode_utf8;
use vstd::utf8::encode_utf8;
use vstd::utf8::valid_utf8;
use super::error::Error;

/// The base64url alphabet (URL-safe, no padding).
pub open spec fn is_b64url_char(c: char) -> bool {
    ('A' <= c && c <= 'Z') || ('a' <= c && c <= 'z') || ('0' <= c && c <= '9') || c == '-' || c
        == '_'
}

pub open spec fn is_b64url_seq(s: Seq<char>) -> bool {
    forall|i: int| 0 <= i < s.len() ==> is_b64url_char(#[trigger] s[i])
}

/// The canonical unpadded base64url encoding of a byte string.
pub uninterp spec fn b64_of(data: Seq<u8>) -> Seq<char>;

/// Shorthand for the encoding of the UTF-8 bytes of a character string.
pub open spec fn b64_of_str(s: Seq<char>) -> Seq<char> {
    b64_of(encode_utf8(s))
}

/// Encodes a byte string into unpadded base64url.
///
/// Relies on base64's `Engine::encode` with the `URL_SAFE_NO_PAD` engine: the
/// result is the canonical unpadded base64url encoding of the input, an
/// injective mapping whose output draws only on the URL-safe alphabet and is
/// empty exactly for empty input.
#[verifier::external_body]
pub fn encode(data: &[u8]) -> (r: String)
    ensures
        r@ == b64_of(data@),
        is_b64url_seq(r@),
        (r@.len() == 0) == (data@.len() == 0),
        forall|b: Seq<u8>| b64_of(b) == r@ ==> b =~= data@,
{
    base64::engine::general_purpose::URL_SAFE_NO_PAD.encode(data)
}

/// Encodes the UTF-8 bytes of a string into unpadded base64url.
///
/// Relies on the same `Engine::encode` call as [`encode`], applied to the
/// UTF-8 bytes the `&str` holds.
#[verifier::external_body]
pub(crate) fn encode_str(data: &str) -> (r: String)
    ensures
        r@ == b64_of_str(data@),
        is_b64url_seq(r@),
        (r@.len() == 0) == (data@.len() == 0),
        forall|b: Seq<u8>| b64_of(b) == r@ ==> b =~= encode_utf8(data@),
{
    base64::engine::general_purpose::URL_SAFE_NO_PAD.encode(data)
}

/// Relies on base64's `Engine::decode` with the `URL_SAFE_NO_PAD` engine: it
/// succeeds exactly on the canonical unpadded base64url encodings (the engine
/// rejects padding and non-zero trailing bits) and returns the unique byte
/// string the input encodes.
#[verifier::external_body]
fn decode_raw(data: &str) -> (r: Result<Vec<u8>, base64::DecodeError>)
    ensures
        r is Ok ==> b64_of(r->Ok_0@) == data@,
        r is Ok ==> forall|b: Seq<u8>| b64_of(b) == data@ ==> b =~= r->Ok_0@,
        (exists|b: Seq<u8>| b64_of(b) == data@) ==> r is Ok,
{
    base64::engine::general_purpose::URL_SAFE_NO_PAD.decode(data)
}

#[verifier::external_type_specification]
#[verifier::external_body]
pub struct ExDecodeError(base64::DecodeError);

/// Decodes an unpadded base64url string, failing with
/// [`Error::DecodingError`] on malformed input.
pub fn decode(data: &str) -> (r: Result<Vec<u8>, Error>)
    ensures
        r is Ok <==> exists|b: Seq<u8>| b64_of(b) == data@,
        r is Ok ==> b64_of(r->Ok_0@) == data@,
        r is Ok ==> forall|b: Seq<u8>| b64_of(b) == data@ ==> b =~= r->Ok_0@,
        r is Err ==> r->Err_0 == Error::DecodingError,
{
    match decode_raw(data) {
        Ok(v) => Ok(v),
        Err(_) => Err(Error::DecodingError),
    }
}

/// Relies on `String::from_utf8`: it succeeds exactly on valid UTF-8 input
/// and returns the string those bytes spell.
#[verifier::external_body]
fn string_from_utf8(v: Vec<u8>) -> (r: Result<String, std::string::FromUtf8Error>)
    ensures
        r is Ok <==> valid_utf8(v@),
        r is Ok ==> r->Ok_0@ == decode_utf8(v@),
{
    String::from_utf8(v)
}

#[verifier::external_type_specification]
#[verifier::external_body]
pub struct ExFromUtf8Error(std::string::FromUtf8Error);

/// Decodes an unpadded base64url string into the UTF-8 string it encodes,
/// failing with [`Error::DecodingError`] both on malformed base64url and on
/// decoded bytes that are not valid UTF-8.
pub fn decode_to_string(data: &str) -> (r: Result<String, Error>)
    ensures
        r is Ok <==> exists|s: Seq<char>| b64_of_str(s) == data@,
        r is Ok ==> b64_of_str(r->Ok_0@) == data@,
        r is Ok ==> forall|s: Seq<char>| b64_of_str(s) == data@ ==> s =~= r->Ok_0@,
        r is Err ==> r->Err_0 == Error::DecodingError,
{
    broadcast use vstd::utf8::encode_utf8_valid_utf8;
    broadcast use vstd::utf8::encode_utf8_decode_utf8;
    broadcast use vstd::utf8::decode_utf8_encode_utf8;

    let vector = match decode(data) {
        Ok(v) => v,
        Err(e) => {
            // a character-string preimage would make the base64url decode succeed
            assert forall|s: Seq<char>| b64_of_str(s) != data@ by {
                if b64_of(encode_utf8(s)) == data@ {
                    assert(exists|b: Seq<u8>| b64_of(b) == data@);
                }
            }
            return Err(e);
        },
    };
    let ghost vbytes: Seq<u8> = vector@;
    match string_from_utf8(vector) {
        Ok(string) => {
            assert(encode_utf8(decode_utf8(vbytes)) == vbytes);
            assert(b64_of_str(string@) == data@);
            assert forall|s: Seq<char>| b64_of_str(s) == data@ implies s =~= string@ by {
                assert(encode_utf8(s) =~= vbytes);
                assert(decode_utf8(encode_utf8(s)) == s);
            }
            Ok(string)
        },
        Err(_) => {
            // the decoded bytes are not UTF-8, so no character string encodes to them
            assert forall|s: Seq<char>| b64_of_str(s) != data@ by {
                if b64_of(encode_utf8(s)) == data@ {
                    assert(encode_utf8(s) =~= vbytes);
                    assert(valid_utf8(encode_utf8(s)));
                }
            }
            Err(Error::DecodingError)
        },
    }
}

} // verus!
