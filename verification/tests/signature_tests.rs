use hmac::Mac;
use shook::hexcode::{hex_decode, hex_encode};
use shook::signature::{ct_eq, verify_signature, VerifyError};

fn hmac_sha256_hex(key: &[u8], msg: &[u8]) -> String {
    let mut mac = <hmac::Hmac<sha2::Sha256> as hmac::Mac>::new_from_slice(key).unwrap();
    mac.update(msg);
    hex::encode(mac.finalize().into_bytes())
}

fn hmac_sha1_hex(key: &[u8], msg: &[u8]) -> String {
    let mut mac = <hmac::Hmac<sha1::Sha1> as hmac::Mac>::new_from_slice(key).unwrap();
    mac.update(msg);
    hex::encode(mac.finalize().into_bytes())
}

const ZEN_BODY: &str = "{\"zen\":\"keep it logically awesome.\"}";

#[test]
fn genuine_sha256_signature_verifies() {
    let secret = "mysecret".to_string();
    let body: Vec<u8> = ZEN_BODY.as_bytes().to_vec();
    let header = format!("sha256={}", hmac_sha256_hex(b"mysecret", &body));
    let r = verify_signature(&None, &Some(header), &Some(secret), &body);
    assert_eq!(r, Ok(()));
}

#[test]
fn flipped_hex_digit_is_unauthorized_not_a_parse_error() {
    let secret = "mysecret".to_string();
    let body: Vec<u8> = ZEN_BODY.as_bytes().to_vec();
    let good = hmac_sha256_hex(b"mysecret", &body);
    // flip the first hex digit to a different digit
    let mut chars: Vec<char> = good.chars().collect();
    chars[0] = if chars[0] == '0' { '1' } else { '0' };
    let bad: String = chars.into_iter().collect();
    let header = format!("sha256={}", bad);
    let r = verify_signature(&None, &Some(header), &Some(secret), &body);
    assert_eq!(r, Err(VerifyError::NotVerified));
}

#[test]
fn altered_body_byte_is_rejected() {
    let secret = "mysecret".to_string();
    let body: Vec<u8> = ZEN_BODY.as_bytes().to_vec();
    let header = format!("sha256={}", hmac_sha256_hex(b"mysecret", &body));
    let mut altered = body.clone();
    altered[0] ^= 1;
    let r = verify_signature(&None, &Some(header), &Some(secret), &altered);
    assert_eq!(r, Err(VerifyError::NotVerified));
}

#[test]
fn sha256_takes_precedence_over_sha1() {
    let secret = "mysecret".to_string();
    let body: Vec<u8> = b"payload".to_vec();
    let good256 = format!("sha256={}", hmac_sha256_hex(b"mysecret", &body));
    // an obviously wrong sha1 header must not matter when sha256 is present
    let bad1 = "sha1=0000".to_string();
    let r = verify_signature(&Some(bad1), &Some(good256), &Some(secret.clone()), &body);
    assert_eq!(r, Ok(()));
    // and a good sha1 header must not save a wrong sha256 one
    let good1 = format!("sha1={}", hmac_sha1_hex(b"mysecret", &body));
    let bad256 = format!("sha256={}", hmac_sha256_hex(b"othersecret", &body));
    let r = verify_signature(&Some(good1), &Some(bad256), &Some(secret), &body);
    assert_eq!(r, Err(VerifyError::NotVerified));
}

#[test]
fn lone_sha1_signature_verifies() {
    let secret = "mysecret".to_string();
    let body: Vec<u8> = b"payload".to_vec();
    let header = format!("sha1={}", hmac_sha1_hex(b"mysecret", &body));
    let r = verify_signature(&Some(header), &None, &Some(secret), &body);
    assert_eq!(r, Ok(()));
}

#[test]
fn no_headers_means_verification_skipped() {
    let r = verify_signature(&None, &None, &None, &b"anything".to_vec());
    assert_eq!(r, Ok(()));
}

#[test]
fn header_without_secret_is_token_missing() {
    let body: Vec<u8> = b"payload".to_vec();
    let header = format!("sha256={}", hmac_sha256_hex(b"mysecret", &body));
    let r = verify_signature(&None, &Some(header), &None, &body);
    assert_eq!(r, Err(VerifyError::TokenMissing));
}

#[test]
fn malformed_prefix_is_a_parse_error() {
    let secret = "mysecret".to_string();
    let body: Vec<u8> = b"payload".to_vec();
    let r = verify_signature(&None, &Some("sha-256=abcd".to_string()), &Some(secret.clone()), &body);
    assert_eq!(r, Err(VerifyError::Sha256ParseError));
    let r = verify_signature(&Some("nonsense".to_string()), &None, &Some(secret), &body);
    assert_eq!(r, Err(VerifyError::Sha1ParseError));
}

#[test]
fn non_hex_payload_is_a_hex_error() {
    let secret = "mysecret".to_string();
    let body: Vec<u8> = b"payload".to_vec();
    let r = verify_signature(&None, &Some("sha256=xyz".to_string()), &Some(secret.clone()), &body);
    assert_eq!(r, Err(VerifyError::HexParseError));
    // odd length is not hex either
    let r = verify_signature(&None, &Some("sha256=abc".to_string()), &Some(secret), &body);
    assert_eq!(r, Err(VerifyError::HexParseError));
}

#[test]
fn hex_encode_agrees_with_reference() {
    let bytes: Vec<u8> = vec![0u8, 1, 15, 16, 127, 128, 255];
    let ours: String = hex_encode(bytes.as_slice()).into_iter().collect();
    assert_eq!(ours, hex::encode(&bytes));
}

#[test]
fn hex_decode_agrees_with_reference() {
    let text = "00010f107f80ff";
    let chars: Vec<char> = text.chars().collect();
    let ours = hex_decode(chars.as_slice()).unwrap();
    assert_eq!(ours, hex::decode(text).unwrap());
    // uppercase digits decode too
    let chars: Vec<char> = "ABCDEF".chars().collect();
    assert_eq!(hex_decode(chars.as_slice()).unwrap(), vec![0xabu8, 0xcd, 0xef]);
    // odd length and bad digits fail
    let chars: Vec<char> = "abc".chars().collect();
    assert!(hex_decode(chars.as_slice()).is_none());
    let chars: Vec<char> = "zz".chars().collect();
    assert!(hex_decode(chars.as_slice()).is_none());
}

#[test]
fn constant_time_compare_is_equality() {
    assert!(ct_eq(b"abc", b"abc"));
    assert!(!ct_eq(b"abc", b"abd"));
    assert!(!ct_eq(b"abc", b"ab"));
    assert!(ct_eq(b"", b""));
}
