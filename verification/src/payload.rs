//! From a raw delivery to a verified, typed payload.
//!
//! A delivery carries a delivery id, optional signature headers, a content
//! type, an event name and the raw body bytes. The signature is checked over
//! the raw bytes; the body is normalized into the compact document form and
//! decoded against the named event's schema.
use vstd::prelude::*;
use crate::events::{
    event_model, sd_event, DecodeError, DecodeErrorKind, DecodeErrorModel, Event, EventModel,
    err_model,
};
use crate::json::{jv_model, parse_json, sp_json, JsonModel, JsonValue};
use crate::signature::{
    opt_chars, opt_key_bytes, spec_verify_signature, verify_signature, VerifyError,
};

verus! {

/// A verified and decoded delivery.
#[derive(Debug, PartialEq)]
pub struct GithubPayload {
    /// The delivery id, the value of the delivery header.
    pub guid: u128,
    /// The sha1 signature header, when one was sent.
    pub signature_sha1: Option<String>,
    /// The sha256 signature header, when one was sent.
    pub signature_sha256: Option<String>,
    /// The decoded event.
    pub event: Event,
}

/// The transport encoding of a body.
#[derive(Clone, Copy, Debug, PartialEq, Eq, Structural)]
pub enum BodyFormat {
    Json,
    Form,
}

/// The format a content-type header names, or `None` when it is neither of
/// the accepted two.
pub open spec fn spec_body_format(ct: Seq<char>) -> Option<BodyFormat> {
    if ct == "application/json"@ {
        Some(BodyFormat::Json)
    } else if ct == "application/x-www-form-urlencoded"@ {
        Some(BodyFormat::Form)
    } else {
        None
    }
}

/// Classify a content-type header.
pub fn body_format(ct: &str) -> (r: Option<BodyFormat>)
    ensures
        r == spec_body_format(ct@),
{
    let cv = crate::textutil::str_to_chars(ct);
    if crate::textutil::chars_eq_str(cv.as_slice(), "application/json") {
        Some(BodyFormat::Json)
    } else if crate::textutil::chars_eq_str(cv.as_slice(), "application/x-www-form-urlencoded") {
        Some(BodyFormat::Form)
    } else {
        None
    }
}

/// The compact rendering of a JSON body, or `None` when the bytes are not a
/// JSON document. Relied on as a function of the bytes alone; its value is
/// given only by the JSON library.
pub uninterp spec fn json_canon_of(b: Seq<u8>) -> Option<Seq<char>>;

/// The compact rendering of a form-encoded body, or `None` when the bytes
/// are not a form document. Relied on as a function of the bytes alone.
pub uninterp spec fn form_canon_of(b: Seq<u8>) -> Option<Seq<char>>;

/// Relies on `serde_json::from_slice` and `serde_json::to_string`: a JSON
/// body parses to a document or fails, and the document renders back in the
/// compact form; both steps depend on the bytes alone. `to_string` cannot
/// fail on a document value.
#[verifier::external_body]
fn json_normalize(b: &[u8]) -> (r: Option<Vec<char>>)
    ensures
        match r {
            Some(cs) => json_canon_of(b@) == Some(cs@),
            None => json_canon_of(b@) is None,
        },
{
    match serde_json::from_slice::<serde_json::Value>(b) {
        Ok(v) => match serde_json::to_string(&v) {
            Ok(s) => Some(s.chars().collect()),
            Err(_) => None,
        },
        Err(_) => None,
    }
}

/// Relies on `serde_urlencoded::from_bytes` and `serde_json::to_string`: a
/// form-encoded body parses to a document of string fields or fails, and the
/// document renders back in the compact form; both steps depend on the bytes
/// alone.
#[verifier::external_body]
fn form_normalize(b: &[u8]) -> (r: Option<Vec<char>>)
    ensures
        match r {
            Some(cs) => form_canon_of(b@) == Some(cs@),
            None => form_canon_of(b@) is None,
        },
{
    match serde_urlencoded::from_bytes::<serde_json::Value>(b) {
        Ok(v) => match serde_json::to_string(&v) {
            Ok(s) => Some(s.chars().collect()),
            Err(_) => None,
        },
        Err(_) => None,
    }
}

/// The outcome of decoding a delivery body: the content type picks the
/// transport, the body is normalized to the compact document form, and the
/// document is held against the named event's schema.
pub open spec fn spec_decode(ct: Seq<char>, name: Seq<char>, body: Seq<u8>) -> Result<
    EventModel,
    DecodeErrorModel,
> {
    match spec_body_format(ct) {
        Option::None => Err(DecodeErrorModel {
            path: Seq::empty(),
            kind: DecodeErrorKind::UnsupportedContentType,
        }),
        Option::Some(fmt) => {
            let canon = if fmt is Json {
                json_canon_of(body)
            } else {
                form_canon_of(body)
            };
            match canon {
                Option::None => Err(DecodeErrorModel {
                    path: Seq::empty(),
                    kind: DecodeErrorKind::MalformedBody,
                }),
                Option::Some(text) => match sp_json(text) {
                    Option::None => Err(DecodeErrorModel {
                        path: Seq::empty(),
                        kind: DecodeErrorKind::MalformedBody,
                    }),
                    Option::Some(m) => sd_event(name, m),
                },
            }
        },
    }
}

/// Decode a delivery body into a typed event.
///
/// A content type other than the accepted two is rejected before the body is
/// read; a body that does not parse is rejected whole; an unknown event name
/// is an error, never a default event; and a schema failure names the path
/// to the first bad field.
pub fn decode(content_type: &str, event_name: &str, body: &Vec<u8>) -> (r: Result<
    Event,
    DecodeError,
>)
    ensures
        match r {
            Ok(e) => spec_decode(content_type@, event_name@, body@) == Ok::<
                EventModel,
                DecodeErrorModel,
            >(event_model(e)),
            Err(er) => spec_decode(content_type@, event_name@, body@) == Err::<
                EventModel,
                DecodeErrorModel,
            >(err_model(er)),
        },
{
    let fmt = match body_format(content_type) {
        Some(f) => f,
        None => {
            return Err(root_error(DecodeErrorKind::UnsupportedContentType));
        },
    };
    let canon = match fmt {
        BodyFormat::Json => json_normalize(body.as_slice()),
        BodyFormat::Form => form_normalize(body.as_slice()),
    };
    let text = match canon {
        Some(t) => t,
        None => {
            return Err(root_error(DecodeErrorKind::MalformedBody));
        },
    };
    let doc = match parse_json(text.as_slice()) {
        Some(d) => d,
        None => {
            return Err(root_error(DecodeErrorKind::MalformedBody));
        },
    };
    crate::events::decode_event(event_name, &doc)
}

/// A decode failure with an empty path.
fn root_error(kind: DecodeErrorKind) -> (r: DecodeError)
    ensures
        err_model(r) == (DecodeErrorModel { path: Seq::<Seq<char>>::empty(), kind }),
{
    let r = DecodeError { path: Vec::new(), kind };
    proof {
        assert(r.path.deep_view() =~= Seq::<Seq<char>>::empty());
    }
    r
}

/// The outcome of verifying and decoding a delivery: the signature decides
/// first, then the body is decoded; a decode failure is reported as an event
/// parse error.
pub open spec fn spec_verify(
    sig1: Option<Seq<char>>,
    sig256: Option<Seq<char>>,
    secret: Option<Seq<u8>>,
    body: Seq<u8>,
    ct: Seq<char>,
    name: Seq<char>,
) -> Result<EventModel, VerifyError> {
    match spec_verify_signature(sig1, sig256, secret, body) {
        Err(e) => Err(e),
        Ok(_) => match spec_decode(ct, name, body) {
            Ok(em) => Ok(em),
            Err(_) => Err(VerifyError::EventParseError),
        },
    }
}

/// Verify and decode one delivery.
///
/// The keyed hash is computed over the raw body bytes, never a re-rendered
/// form; the shared secret is a value handed in, so one process can serve
/// several secrets. On success the payload carries the decoded event with
/// the headers it arrived under.
pub fn verify(
    guid: u128,
    signature_sha1: Option<String>,
    signature_sha256: Option<String>,
    secret: &Option<String>,
    bytes: &Vec<u8>,
    content_type: &str,
    event_name: &str,
) -> (r: Result<GithubPayload, VerifyError>)
    ensures
        match r {
            Ok(p) => {
                &&& spec_verify(
                    opt_chars(signature_sha1),
                    opt_chars(signature_sha256),
                    opt_key_bytes(*secret),
                    bytes@,
                    content_type@,
                    event_name@,
                ) == Ok::<EventModel, VerifyError>(event_model(p.event))
                &&& p.guid == guid
                &&& p.signature_sha1 == signature_sha1
                &&& p.signature_sha256 == signature_sha256
            },
            Err(e) => spec_verify(
                opt_chars(signature_sha1),
                opt_chars(signature_sha256),
                opt_key_bytes(*secret),
                bytes@,
                content_type@,
                event_name@,
            ) == Err::<EventModel, VerifyError>(e),
        },
{
    match verify_signature(&signature_sha1, &signature_sha256, secret, bytes) {
        Err(e) => Err(e),
        Ok(_) => match decode(content_type, event_name, bytes) {
            Ok(event) => Ok(
                GithubPayload { guid, signature_sha1, signature_sha256, event },
            ),
            Err(_) => Err(VerifyError::EventParseError),
        },
    }
}

} // verus!
