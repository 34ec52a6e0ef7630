//! Authenticity check for inbound webhook payloads.
//!
//! A payload is authentic when its `x-hub-signature-256` header reads
//! `sha256=` followed by the lower-case hexadecimal HMAC-SHA256 tag of the raw
//! payload bytes under the configured secret.

use crate::error::Error;
use hmac::Mac;
use vstd::prelude::*;
use vstd::string::StringSliceAdditionalSpecFns;

verus! {

/// The HMAC-SHA256 tag of `message` under `key`.
pub uninterp spec fn hmac_sha256(key: Seq<u8>, message: Seq<u8>) -> Seq<u8>;

/// The lower-case hexadecimal digit for a value below sixteen.
pub open spec fn hex_digit(nibble: int) -> char {
    if nibble == 0 {
        '0'
    } else if nibble == 1 {
        '1'
    } else if nibble == 2 {
        '2'
    } else if nibble == 3 {
        '3'
    } else if nibble == 4 {
        '4'
    } else if nibble == 5 {
        '5'
    } else if nibble == 6 {
        '6'
    } else if nibble == 7 {
        '7'
    } else if nibble == 8 {
        '8'
    } else if nibble == 9 {
        '9'
    } else if nibble == 10 {
        'a'
    } else if nibble == 11 {
        'b'
    } else if nibble == 12 {
        'c'
    } else if nibble == 13 {
        'd'
    } else if nibble == 14 {
        'e'
    } else {
        'f'
    }
}

/// Two digits per byte, high nibble first.
pub open spec fn hex_lower(bytes: Seq<u8>) -> Seq<char> {
    Seq::new(
        2 * bytes.len(),
        |i: int|
            if i % 2 == 0 {
                hex_digit(bytes[i / 2] as int / 16)
            } else {
                hex_digit(bytes[i / 2] as int % 16)
            },
    )
}

/// The one header value that authenticates `payload` under `secret`.
pub open spec fn signature_header(secret: Seq<u8>, payload: Seq<u8>) -> Seq<char> {
    "sha256="@ + hex_lower(hmac_sha256(secret, payload))
}

/// What the check answers for a header, a payload and a configured secret.
pub open spec fn signature_verdict(
    provided: Option<Seq<char>>,
    payload: Seq<u8>,
    secret: Option<Seq<u8>>,
) -> Result<(), Error> {
    match secret {
        None => Ok(()),
        Some(key) => match provided {
            None => Err(Error::MissingPayloadSignature),
            Some(header) => if header == signature_header(key, payload) {
                Ok(())
            } else {
                Err(Error::InvalidPayloadSignature)
            },
        },
    }
}

/// Calls `hmac::Hmac::<sha2::Sha256>`: keys the MAC with `key`, feeds it
/// `message` once and returns the finished tag. The contract only gives the
/// tag its name; `new_from_slice` accepts keys of every length.
#[verifier::external_body]
fn hmac_sha256_tag(key: &[u8], message: &[u8]) -> (tag: Vec<u8>)
    ensures
        tag@ == hmac_sha256(key@, message@),
{
    let mut mac = hmac::Hmac::<sha2::Sha256>::new_from_slice(key).expect("any key length");
    mac.update(message);
    mac.finalize().into_bytes().to_vec()
}

/// Calls `hex::encode`, which writes each byte as two characters taken from
/// `0123456789abcdef`, the high nibble first.
#[verifier::external_body]
fn hex_encode(bytes: &[u8]) -> (text: String)
    ensures
        text@ == hex_lower(bytes@),
{
    hex::encode(bytes)
}

/// Calls `str::strip_prefix`: the rest of `text` behind `prefix` when `text`
/// starts with it, nothing otherwise.
#[verifier::external_body]
fn strip_prefix<'a>(text: &'a str, prefix: &str) -> (rest: Option<&'a str>)
    ensures
        match rest {
            Some(tail) => text@ == prefix@ + tail@,
            None => !prefix@.is_prefix_of(text@),
        },
{
    text.strip_prefix(prefix)
}

/// Compares through `secstr::SecStr`, whose `==` answers whether both hold
/// the same bytes, in a time that depends on their lengths only.
#[verifier::external_body]
fn constant_time_eq(left: &str, right: &str) -> (equal: bool)
    ensures
        equal == (left@ == right@),
{
    secstr::SecStr::from(left) == secstr::SecStr::from(right)
}

proof fn lemma_hex_digit_injective(x: int, y: int)
    requires
        0 <= x < 16,
        0 <= y < 16,
        hex_digit(x) == hex_digit(y),
    ensures
        x == y,
{
}

/// Distinct byte strings have distinct hexadecimal renderings.
pub proof fn lemma_hex_lower_injective(a: Seq<u8>, b: Seq<u8>)
    requires
        hex_lower(a) == hex_lower(b),
    ensures
        a == b,
{
    let x = hex_lower(a);
    let y = hex_lower(b);
    assert(x.len() == 2 * a.len());
    assert(y.len() == 2 * b.len());
    assert forall|i: int| 0 <= i < a.len() implies a[i] == b[i] by {
        assert(x[2 * i] == y[2 * i]);
        assert(x[2 * i + 1] == y[2 * i + 1]);
        assert((2 * i) / 2 == i && (2 * i) % 2 == 0);
        assert((2 * i + 1) / 2 == i && (2 * i + 1) % 2 == 1);
        lemma_hex_digit_injective(a[i] as int / 16, b[i] as int / 16);
        lemma_hex_digit_injective(a[i] as int % 16, b[i] as int % 16);
    }
    assert(a =~= b);
}

proof fn lemma_same_prefix_same_rest(prefix: Seq<char>, left: Seq<char>, right: Seq<char>)
    ensures
        (prefix + left == prefix + right) <==> left == right,
{
    if prefix + left == prefix + right {
        assert(left =~= (prefix + left).subrange(prefix.len() as int, (prefix + left).len() as int));
        assert(right =~= (prefix + right).subrange(
            prefix.len() as int,
            (prefix + right).len() as int,
        ));
    }
}

/// Whether `digits`, the part of a signature header behind its algorithm
/// tag, is the lower-case hexadecimal rendering of `tag`. The comparison
/// takes the same time wherever the first difference lies.
pub fn digits_match_tag(digits: &str, tag: &[u8]) -> (matching: bool)
    ensures
        matching == (digits@ == hex_lower(tag@)),
{
    let expected = hex_encode(tag);
    constant_time_eq(digits, expected.as_str())
}

/// Verify a webhook event payload by checking the provided signature.
///
/// Without a configured secret every payload is accepted. With one, the
/// header must be present and must be exactly the signature of the raw
/// payload bytes.
pub fn verify_payload_signature(
    provided_signature: Option<String>,
    payload: &[u8],
    secret: Option<&str>,
) -> (verdict: Result<(), Error>)
    ensures
        verdict == signature_verdict(
            match provided_signature {
                Some(header) => Some(header@),
                None => None,
            },
            payload@,
            match secret {
                Some(key) => Some(key.spec_bytes()),
                None => None,
            },
        ),
{
    let key = match secret {
        Some(key) => key,
        None => {
            return Ok(());
        },
    };
    let header = match provided_signature {
        Some(header) => header,
        None => {
            return Err(Error::MissingPayloadSignature);
        },
    };
    let digits = match strip_prefix(header.as_str(), "sha256=") {
        Some(rest) => rest,
        None => {
            assert(header@ != signature_header(key.spec_bytes(), payload@)) by {
                let expected = signature_header(key.spec_bytes(), payload@);
                if header@ == expected {
                    assert("sha256="@ =~= expected.subrange(0, "sha256="@.len() as int));
                }
            }
            return Err(Error::InvalidPayloadSignature);
        },
    };
    let tag = hmac_sha256_tag(key.as_bytes(), payload);
    proof {
        lemma_same_prefix_same_rest("sha256="@, digits@, hex_lower(tag@));
    }
    if digits_match_tag(digits, tag.as_slice()) {
        Ok(())
    } else {
        Err(Error::InvalidPayloadSignature)
    }
}

/// The header built from the payload's own tag is accepted.
pub proof fn lemma_signed_payload_verifies(secret: Seq<u8>, payload: Seq<u8>)
    ensures
        signature_verdict(Some(signature_header(secret, payload)), payload, Some(secret)) == Ok::<
            (),
            Error,
        >(()),
{
}

/// Under a configured secret, every header other than the payload's own
/// signature is rejected as invalid: a flipped bit anywhere in the header,
/// another algorithm tag, a truncated or extended value.
pub proof fn lemma_altered_signature_fails(header: Seq<char>, secret: Seq<u8>, payload: Seq<u8>)
    requires
        header != signature_header(secret, payload),
    ensures
        signature_verdict(Some(header), payload, Some(secret)) == Err::<(), Error>(
            Error::InvalidPayloadSignature,
        ),
{
}

/// A signature made for one payload is accepted for another exactly when
/// both payloads have the same tag under the secret.
pub proof fn lemma_altered_payload_fails_unless_tags_collide(
    secret: Seq<u8>,
    signed: Seq<u8>,
    received: Seq<u8>,
)
    ensures
        signature_verdict(Some(signature_header(secret, signed)), received, Some(secret)) is Ok
            <==> hmac_sha256(secret, signed) == hmac_sha256(secret, received),
{
    let signed_tag = hmac_sha256(secret, signed);
    let received_tag = hmac_sha256(secret, received);
    lemma_same_prefix_same_rest("sha256="@, hex_lower(signed_tag), hex_lower(received_tag));
    if hex_lower(signed_tag) == hex_lower(received_tag) {
        lemma_hex_lower_injective(signed_tag, received_tag);
    }
}

/// With a secret configured, a request without the header is rejected as
/// missing its signature, whatever the payload.
pub proof fn lemma_missing_signature_is_reported(secret: Seq<u8>, payload: Seq<u8>)
    ensures
        signature_verdict(None, payload, Some(secret)) == Err::<(), Error>(
            Error::MissingPayloadSignature,
        ),
{
}

/// Without a configured secret every request is accepted, with or without
/// the header.
pub proof fn lemma_no_secret_accepts_all(provided: Option<Seq<char>>, payload: Seq<u8>)
    ensures
        signature_verdict(provided, payload, None) == Ok::<(), Error>(()),
{
}

} // verus!
