//! Keyed-hash signature verification over the raw request body.
//!
//! A delivery may carry a sha1 and/or a sha256 signature header of the form
//! `<algo>=<hex-digest>`. When a sha256 header is present it alone decides
//! the outcome; a sha1 header is used only on its own; with no header at all
//! verification is skipped. The digest comparison is constant-time.
use vstd::prelude::*;
use vstd::slice::slice_subrange;
use vstd::utf8::encode_utf8;
use crate::hexcode::{hex_decode, hex_decoded};
use crate::textutil::{chars_eq, str_to_chars};

verus! {

/// Error verifying a delivery's signature or decoding its event.
#[derive(Clone, Copy, Debug, PartialEq, Eq, Structural)]
pub enum VerifyError {
    /// A signature header is present but no shared secret is configured.
    TokenMissing,
    /// The keyed-hash state could not be set up.
    HmacCreation,
    /// The sha1 header does not have the form `sha1=<hex>`.
    Sha1ParseError,
    /// The sha256 header does not have the form `sha256=<hex>`.
    Sha256ParseError,
    /// The part after `=` is not a hex string.
    HexParseError,
    /// The digests do not match: the delivery is not authenticated.
    NotVerified,
    /// The body does not decode into a known event.
    EventParseError,
}

/// The HMAC-SHA1 tag of a message under a key. Relied on as a pure function
/// of key and message; its value is given only by the `hmac` crate.
pub uninterp spec fn hmac_sha1_of(key: Seq<u8>, msg: Seq<u8>) -> Seq<u8>;

/// The HMAC-SHA256 tag of a message under a key. Relied on as a pure
/// function of key and message; its value is given only by the `hmac` crate.
pub uninterp spec fn hmac_sha256_of(key: Seq<u8>, msg: Seq<u8>) -> Seq<u8>;

/// Relies on `hmac::Hmac<sha1::Sha1>` (`new_from_slice`, `update`,
/// `finalize`): the tag depends on key and message alone and is 20 bytes
/// long; `new_from_slice` accepts keys of every length.
#[verifier::external_body]
fn hmac_sha1_bytes(key: &[u8], msg: &[u8]) -> (r: Vec<u8>)
    ensures
        r@ == hmac_sha1_of(key@, msg@),
        r@.len() == 20,
{
    let mut mac = <hmac::Hmac<sha1::Sha1> as hmac::Mac>::new_from_slice(key)
        .expect("every key length is accepted");
    hmac::Mac::update(&mut mac, msg);
    hmac::Mac::finalize(mac).into_bytes().to_vec()
}

/// Relies on `hmac::Hmac<sha2::Sha256>` (`new_from_slice`, `update`,
/// `finalize`): the tag depends on key and message alone and is 32 bytes
/// long; `new_from_slice` accepts keys of every length.
#[verifier::external_body]
fn hmac_sha256_bytes(key: &[u8], msg: &[u8]) -> (r: Vec<u8>)
    ensures
        r@ == hmac_sha256_of(key@, msg@),
        r@.len() == 32,
{
    let mut mac = <hmac::Hmac<sha2::Sha256> as hmac::Mac>::new_from_slice(key)
        .expect("every key length is accepted");
    hmac::Mac::update(&mut mac, msg);
    hmac::Mac::finalize(mac).into_bytes().to_vec()
}

/// The `sha1=` header prefix.
pub open spec fn sha1_prefix() -> Seq<char> {
    seq!['s', 'h', 'a', '1', '=']
}

/// The `sha256=` header prefix.
pub open spec fn sha256_prefix() -> Seq<char> {
    seq!['s', 'h', 'a', '2', '5', '6', '=']
}

/// The hex part of a signature header: the rest after the given prefix, or
/// `None` when the header does not start with that prefix.
pub open spec fn sig_header_hex(h: Seq<char>, p: Seq<char>) -> Option<Seq<char>> {
    if h.len() >= p.len() && h.take(p.len() as int) == p {
        Some(h.skip(p.len() as int))
    } else {
        None
    }
}

/// Outcome of checking one signature header against a digest function.
/// A missing secret is reported first, then a malformed prefix, then a
/// non-hex payload; otherwise the decoded digest must equal the keyed hash
/// of the body.
pub open spec fn spec_check_header(
    h: Seq<char>,
    prefix: Seq<char>,
    parse_error: VerifyError,
    tag: Seq<u8>,
    secret: Option<Seq<u8>>,
) -> Result<(), VerifyError> {
    match secret {
        Option::None => Err(VerifyError::TokenMissing),
        Option::Some(_) => match sig_header_hex(h, prefix) {
            Option::None => Err(parse_error),
            Option::Some(hx) => match hex_decoded(hx) {
                Option::None => Err(VerifyError::HexParseError),
                Option::Some(d) => if d == tag {
                    Ok(())
                } else {
                    Err(VerifyError::NotVerified)
                },
            },
        },
    }
}

/// Outcome of signature verification for a delivery: sha256 alone decides
/// when its header is present, sha1 is used only on its own, and no header
/// at all means verification is skipped.
pub open spec fn spec_verify_signature(
    sig1: Option<Seq<char>>,
    sig256: Option<Seq<char>>,
    secret: Option<Seq<u8>>,
    body: Seq<u8>,
) -> Result<(), VerifyError> {
    match (sig1, sig256) {
        (Option::None, Option::None) => Ok(()),
        (Option::Some(h1), Option::None) => spec_check_header(
            h1,
            sha1_prefix(),
            VerifyError::Sha1ParseError,
            hmac_sha1_of(secret.unwrap_or(Seq::empty()), body),
            secret,
        ),
        (_, Option::Some(h256)) => spec_check_header(
            h256,
            sha256_prefix(),
            VerifyError::Sha256ParseError,
            hmac_sha256_of(secret.unwrap_or(Seq::empty()), body),
            secret,
        ),
    }
}

/// The characters of an optional header value.
pub open spec fn opt_chars(o: Option<String>) -> Option<Seq<char>> {
    match o {
        Option::Some(s) => Some(s@),
        Option::None => None,
    }
}

/// The key bytes of an optional secret.
pub open spec fn opt_key_bytes(o: Option<String>) -> Option<Seq<u8>> {
    match o {
        Option::Some(s) => Some(encode_utf8(s@)),
        Option::None => None,
    }
}

/// Constant-time equality of two byte strings: the running time does not
/// depend on the position of the first mismatch.
pub fn ct_eq(a: &[u8], b: &[u8]) -> (r: bool)
    ensures
        r == (a@ == b@),
{
    if a.len() != b.len() {
        return false;
    }
    let mut diff: u8 = 0;
    let mut i: usize = 0;
    while i < a.len()
        invariant
            a@.len() == b@.len(),
            i <= a@.len(),
            (diff == 0) <==> (forall|j: int| 0 <= j < i ==> a@[j] == b@[j]),
        decreases a@.len() - i,
    {
        let x = a[i];
        let y = b[i];
        let d0 = diff;
        diff = diff | (x ^ y);
        proof {
            assert((d0 | (x ^ y)) == 0 <==> d0 == 0 && x == y) by (bit_vector);
        }
        i = i + 1;
    }
    if diff == 0 {
        proof {
            assert(a@ =~= b@);
        }
        true
    } else {
        false
    }
}

/// Check one signature header: parse the prefix, hex-decode the digest, and
/// compare it in constant time against the computed tag.
fn check_header(
    h: &String,
    prefix: &Vec<char>,
    parse_error: VerifyError,
    tag: &Vec<u8>,
) -> (r: Result<(), VerifyError>)
    ensures
        r == (match sig_header_hex(h@, prefix@) {
            Option::None => Err::<(), VerifyError>(parse_error),
            Option::Some(hx) => match hex_decoded(hx) {
                Option::None => Err(VerifyError::HexParseError),
                Option::Some(d) => if d == tag@ {
                    Ok(())
                } else {
                    Err(VerifyError::NotVerified)
                },
            },
        }),
{
    let hv = str_to_chars(h.as_str());
    if hv.len() < prefix.len() {
        return Err(parse_error);
    }
    let head = slice_subrange(hv.as_slice(), 0, prefix.len());
    if !chars_eq(head, prefix.as_slice()) {
        proof {
            assert(h@.take(prefix@.len() as int) =~= head@);
        }
        return Err(parse_error);
    }
    proof {
        assert(h@.take(prefix@.len() as int) =~= head@);
    }
    let hex_part = slice_subrange(hv.as_slice(), prefix.len(), hv.len());
    proof {
        assert(h@.skip(prefix@.len() as int) =~= hex_part@);
    }
    match hex_decode(hex_part) {
        Option::None => Err(VerifyError::HexParseError),
        Option::Some(d) => {
            if ct_eq(d.as_slice(), tag.as_slice()) {
                Ok(())
            } else {
                Err(VerifyError::NotVerified)
            }
        },
    }
}

/// Verify a delivery's signature headers against the raw body.
///
/// With a sha256 header present its digest alone decides; a sha1 header is
/// checked only when it stands alone; with neither header verification is
/// skipped. A header without the shared secret is a configuration error.
pub fn verify_signature(
    signature_sha1: &Option<String>,
    signature_sha256: &Option<String>,
    secret: &Option<String>,
    body: &Vec<u8>,
) -> (r: Result<(), VerifyError>)
    ensures
        r == spec_verify_signature(
            opt_chars(*signature_sha1),
            opt_chars(*signature_sha256),
            opt_key_bytes(*secret),
            body@,
        ),
{
    if let Some(h256) = signature_sha256 {
        let key = match secret {
            Some(k) => k,
            None => {
                return Err(VerifyError::TokenMissing);
            },
        };
        let tag = hmac_sha256_bytes(key.as_str().as_bytes(), body.as_slice());
        let prefix: Vec<char> = vec!['s', 'h', 'a', '2', '5', '6', '='];
        proof {
            assert(prefix@ =~= sha256_prefix());
        }
        check_header(h256, &prefix, VerifyError::Sha256ParseError, &tag)
    } else if let Some(h1) = signature_sha1 {
        let key = match secret {
            Some(k) => k,
            None => {
                return Err(VerifyError::TokenMissing);
            },
        };
        let tag = hmac_sha1_bytes(key.as_str().as_bytes(), body.as_slice());
        let prefix: Vec<char> = vec!['s', 'h', 'a', '1', '='];
        proof {
            assert(prefix@ =~= sha1_prefix());
        }
        check_header(h1, &prefix, VerifyError::Sha1ParseError, &tag)
    } else {
        Ok(())
    }
}

/// A genuine signature is accepted: for every secret and body, a sha256
/// header carrying the hex-encoded keyed hash of the body verifies, whatever
/// sha1 header stands beside it.
pub proof fn lemma_verify_accepts_genuine(
    sig1: Option<Seq<char>>,
    secret: Seq<u8>,
    body: Seq<u8>,
)
    ensures
        spec_verify_signature(
            sig1,
            Some(sha256_prefix() + hex_encoded_tag(secret, body)),
            Some(secret),
            body,
        ) == Ok::<(), VerifyError>(()),
{
    let p = sha256_prefix();
    let e = hex_encoded_tag(secret, body);
    let h = p + e;
    assert(h.take(p.len() as int) =~= p);
    assert(h.skip(p.len() as int) =~= e);
    crate::hexcode::lemma_hex_round_trip(hmac_sha256_of(secret, body));
}

/// The sha256 header carrying the genuine tag, hex-encoded.
pub open spec fn hex_encoded_tag(secret: Seq<u8>, body: Seq<u8>) -> Seq<char> {
    crate::hexcode::hex_encoded(hmac_sha256_of(secret, body))
}

/// A differing digest is rejected: when the digest a sha256 header decodes
/// to is not the keyed hash of the body, verification fails as not
/// authenticated. That two bodies collide under the same key is outside this
/// model; the hypothesis states their tags differ.
pub proof fn lemma_verify_rejects_differing_tag(
    sig1: Option<Seq<char>>,
    h256: Seq<char>,
    secret: Seq<u8>,
    body: Seq<u8>,
)
    requires
        sig_header_hex(h256, sha256_prefix()) is Some,
        hex_decoded(sig_header_hex(h256, sha256_prefix()).unwrap()) is Some,
        hex_decoded(sig_header_hex(h256, sha256_prefix()).unwrap()).unwrap() != hmac_sha256_of(
            secret,
            body,
        ),
    ensures
        spec_verify_signature(sig1, Some(h256), Some(secret), body) == Err::<
            (),
            VerifyError,
        >(VerifyError::NotVerified),
{
}

/// With both headers present only the sha256 result decides: the outcome
/// does not depend on the sha1 header at all.
pub proof fn lemma_sha256_takes_precedence(
    sig1_a: Option<Seq<char>>,
    sig1_b: Option<Seq<char>>,
    h256: Seq<char>,
    secret: Option<Seq<u8>>,
    body: Seq<u8>,
)
    ensures
        spec_verify_signature(sig1_a, Some(h256), secret, body) == spec_verify_signature(
            sig1_b,
            Some(h256),
            secret,
            body,
        ),
{
}

} // verus!
