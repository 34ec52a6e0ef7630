use github_app_client::github_api::signature::digits_match_tag;
use github_app_client::github_api::verify_payload_signature;
use github_app_client::Error;
use hmac::Mac;

fn sign(secret: &str, payload: &[u8]) -> String {
    let mut mac = hmac::Hmac::<sha2::Sha256>::new_from_slice(secret.as_bytes()).unwrap();
    mac.update(payload);
    format!("sha256={}", hex::encode(mac.finalize().into_bytes()))
}

#[test]
fn accepts_the_documented_example_signature() {
    let header =
        "sha256=757107ea0eb2509fc211221cce984b8a37570b6d7586c22c46f4379c8b043e17".to_string();
    let verdict =
        verify_payload_signature(Some(header), b"Hello, World!", Some("It's a Secret to Everybody"));
    assert_eq!(verdict, Ok(()));
}

#[test]
fn accepts_a_signature_made_over_the_raw_bytes() {
    let payload = b"{\"ref\": \"main\",  \"ref_type\":\"branch\"}\n";
    let header = sign("s3cret", payload);
    assert_eq!(verify_payload_signature(Some(header), payload, Some("s3cret")), Ok(()));
}

#[test]
fn accepts_a_signature_over_an_empty_payload() {
    let header = sign("k", b"");
    assert_eq!(verify_payload_signature(Some(header), b"", Some("k")), Ok(()));
}

#[test]
fn rejects_a_payload_with_one_bit_flipped() {
    let payload = b"Hello, World!".to_vec();
    let header = sign("It's a Secret to Everybody", &payload);
    for index in 0..payload.len() {
        for bit in 0..8 {
            let mut altered = payload.clone();
            altered[index] ^= 1 << bit;
            assert_eq!(
                verify_payload_signature(
                    Some(header.clone()),
                    &altered,
                    Some("It's a Secret to Everybody")
                ),
                Err(Error::InvalidPayloadSignature)
            );
        }
    }
}

#[test]
fn rejects_a_signature_with_one_bit_flipped() {
    let payload = b"Hello, World!";
    let header = sign("It's a Secret to Everybody", payload).into_bytes();
    for index in 0..header.len() {
        for bit in 0..7 {
            let mut altered = header.clone();
            altered[index] ^= 1 << bit;
            let altered = String::from_utf8(altered).unwrap();
            assert_eq!(
                verify_payload_signature(Some(altered), payload, Some("It's a Secret to Everybody")),
                Err(Error::InvalidPayloadSignature)
            );
        }
    }
}

#[test]
fn rejects_a_reformatted_payload() {
    let header = sign("s3cret", b"{\"a\":1,\"b\":2}");
    assert_eq!(
        verify_payload_signature(Some(header), b"{\"a\": 1, \"b\": 2}", Some("s3cret")),
        Err(Error::InvalidPayloadSignature)
    );
}

#[test]
fn rejects_a_signature_made_with_another_secret() {
    let header = sign("other", b"payload");
    assert_eq!(
        verify_payload_signature(Some(header), b"payload", Some("s3cret")),
        Err(Error::InvalidPayloadSignature)
    );
}

#[test]
fn reports_a_missing_signature_when_a_secret_is_configured() {
    assert_eq!(
        verify_payload_signature(None, b"payload", Some("s3cret")),
        Err(Error::MissingPayloadSignature)
    );
}

#[test]
fn accepts_everything_without_a_secret() {
    assert_eq!(verify_payload_signature(None, b"payload", None), Ok(()));
    assert_eq!(
        verify_payload_signature(Some("sha256=00".to_string()), b"payload", None),
        Ok(())
    );
    assert_eq!(verify_payload_signature(Some("nonsense".to_string()), b"", None), Ok(()));
}

#[test]
fn rejects_another_algorithm_tag() {
    let header = sign("s3cret", b"payload").replacen("sha256=", "sha1=", 1);
    assert_eq!(
        verify_payload_signature(Some(header), b"payload", Some("s3cret")),
        Err(Error::InvalidPayloadSignature)
    );
}

#[test]
fn rejects_a_signature_without_the_tag() {
    let header = sign("s3cret", b"payload").replacen("sha256=", "", 1);
    assert_eq!(
        verify_payload_signature(Some(header), b"payload", Some("s3cret")),
        Err(Error::InvalidPayloadSignature)
    );
}

#[test]
fn rejects_upper_case_digits_and_wrong_lengths() {
    let header = sign("s3cret", b"payload");
    assert_eq!(
        verify_payload_signature(Some(header.to_uppercase()), b"payload", Some("s3cret")),
        Err(Error::InvalidPayloadSignature)
    );
    let upper_digits = format!("sha256={}", header["sha256=".len()..].to_uppercase());
    assert_ne!(upper_digits, header);
    assert_eq!(
        verify_payload_signature(Some(upper_digits), b"payload", Some("s3cret")),
        Err(Error::InvalidPayloadSignature)
    );
    assert_eq!(
        verify_payload_signature(Some(format!("{header}0")), b"payload", Some("s3cret")),
        Err(Error::InvalidPayloadSignature)
    );
    assert_eq!(
        verify_payload_signature(
            Some(header[..header.len() - 1].to_string()),
            b"payload",
            Some("s3cret")
        ),
        Err(Error::InvalidPayloadSignature)
    );
    assert_eq!(
        verify_payload_signature(Some("sha256=".to_string()), b"payload", Some("s3cret")),
        Err(Error::InvalidPayloadSignature)
    );
    assert_eq!(
        verify_payload_signature(Some(String::new()), b"payload", Some("s3cret")),
        Err(Error::InvalidPayloadSignature)
    );
}

#[test]
fn rejects_the_payload_itself_as_signature() {
    assert_eq!(
        verify_payload_signature(Some("sha256=payload".to_string()), b"payload", Some("s3cret")),
        Err(Error::InvalidPayloadSignature)
    );
}

#[test]
fn digits_are_two_per_byte_in_lower_case() {
    assert!(digits_match_tag("", &[]));
    assert!(digits_match_tag("00", &[0x00]));
    assert!(digits_match_tag("0a", &[0x0a]));
    assert!(digits_match_tag("a0", &[0xa0]));
    assert!(digits_match_tag("ff", &[0xff]));
    assert!(digits_match_tag("0123456789abcdef", &[0x01, 0x23, 0x45, 0x67, 0x89, 0xab, 0xcd, 0xef]));
    assert!(digits_match_tag("7f80", &[0x7f, 0x80]));
    assert!(!digits_match_tag("0A", &[0x0a]));
    assert!(!digits_match_tag("a", &[0x0a]));
    assert!(!digits_match_tag("a0", &[0x0a]));
    assert!(!digits_match_tag("0a0", &[0x0a]));
    assert!(!digits_match_tag("0a", &[]));
    assert!(!digits_match_tag("", &[0x00]));
    assert!(!digits_match_tag("\n", &[0x0a]));
    assert!(!digits_match_tag("807f", &[0x7f, 0x80]));
}
