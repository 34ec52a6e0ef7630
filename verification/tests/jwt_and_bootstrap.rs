use github_app_client::github_api::bootstrap::access_tokens_endpoint;
use github_app_client::github_api::bootstrap::begin;
use github_app_client::github_api::bootstrap::begin_at;
use github_app_client::github_api::bootstrap::find_installation;
use github_app_client::github_api::bootstrap::installation_endpoint;
use github_app_client::github_api::bootstrap::installation_token;
use github_app_client::github_api::bootstrap::request_access_token;
use github_app_client::github_api::jwt::mint_assertion;
use github_app_client::github_api::jwt::mint_assertion_at;
use github_app_client::github_api::jwt::CLOCK_DRIFT_SECONDS;
use github_app_client::github_api::jwt::LIFETIME_SECONDS;
use github_app_client::github_api::AccessToken;
use github_app_client::github_api::BootstrapCall;
use github_app_client::github_api::Config;
use github_app_client::github_api::JwtClaims;
use github_app_client::github_api::Method;
use github_app_client::github_api::PrivateKey;
use github_app_client::Error;

use rand::SeedableRng;
use rsa::pkcs1::EncodeRsaPrivateKey;
use rsa::pkcs8::EncodePublicKey;

/// A key pair made for the test that asks for it, as the PEM text of the
/// private and of the public key. The generator is seeded, so that every
/// test gets the same pair, and gets it in the same time.
fn key_pair() -> (String, String) {
    let mut rng = rand::rngs::StdRng::seed_from_u64(5);
    let private = rsa::RsaPrivateKey::new(&mut rng, 2048).unwrap();
    let private_pem = private.to_pkcs1_pem(rsa::pkcs1::LineEnding::LF).unwrap().to_string();
    let public_pem =
        private.to_public_key().to_public_key_pem(rsa::pkcs8::LineEnding::LF).unwrap();
    (private_pem, public_pem)
}

/// A public key that belongs to nobody: a modulus of the right size that
/// was not made from a key pair.
fn stranger_public_pem() -> String {
    let modulus = rsa::BigUint::from_bytes_be(&[0xc1u8; 256]);
    let exponent = rsa::BigUint::from(65_537u32);
    rsa::RsaPublicKey::new(modulus, exponent)
        .unwrap()
        .to_public_key_pem(rsa::pkcs8::LineEnding::LF)
        .unwrap()
}

struct Keys {
    private: PrivateKey,
    public_pem: String,
}

fn keys() -> Keys {
    let (private_pem, public_pem) = key_pair();
    Keys { private: PrivateKey::from_pem(private_pem.into_bytes()).unwrap(), public_pem }
}

fn now() -> i64 {
    std::time::SystemTime::now().duration_since(std::time::UNIX_EPOCH).unwrap().as_secs() as i64
}

fn claims_of(
    token: &str,
    public_pem: &str,
) -> Result<serde_json::Value, jsonwebtoken::errors::Error> {
    let key = jsonwebtoken::DecodingKey::from_rsa_pem(public_pem.as_bytes()).unwrap();
    let mut validation = jsonwebtoken::Validation::new(jsonwebtoken::Algorithm::RS256);
    validation.leeway = 0;
    jsonwebtoken::decode::<serde_json::Value>(token, &key, &validation).map(|data| data.claims)
}

fn unverified_claims_of(token: &str, public_pem: &str) -> serde_json::Value {
    let key = jsonwebtoken::DecodingKey::from_rsa_pem(public_pem.as_bytes()).unwrap();
    let mut validation = jsonwebtoken::Validation::new(jsonwebtoken::Algorithm::RS256);
    validation.validate_exp = false;
    jsonwebtoken::decode::<serde_json::Value>(token, &key, &validation).unwrap().claims
}

fn config() -> Config {
    Config::new(None, "acme".to_string(), "key.pem".to_string(), 123, None)
}

#[test]
fn claims_are_timed_around_the_minting() {
    let claims = JwtClaims::new(1_700_000_000, 123);
    assert_eq!(
        claims,
        JwtClaims {
            issued_at: 1_699_999_940,
            expires_at: 1_700_000_600,
            issuer: "123".to_string()
        }
    );
    assert_eq!(CLOCK_DRIFT_SECONDS, 60);
    assert_eq!(LIFETIME_SECONDS, 600);
    let early = JwtClaims::new(0, 0);
    assert_eq!(early.issued_at, -60);
    assert_eq!(early.expires_at, 600);
    assert_eq!(early.issuer, "0");
    let edge = JwtClaims::new(i64::MAX - 600, u64::MAX);
    assert_eq!(edge.expires_at, i64::MAX);
    assert_eq!(edge.issuer, "18446744073709551615");
    let low = JwtClaims::new(i64::MIN + 60, 1);
    assert_eq!(low.issued_at, i64::MIN);
}

#[test]
fn a_minted_assertion_carries_the_claims_and_verifies() {
    let keys = keys();
    let minted_at = now();
    let assertion = mint_assertion_at(&keys.private, 123, minted_at).unwrap();
    let claims = claims_of(assertion.as_str(), &keys.public_pem).unwrap();
    assert_eq!(claims["iat"], serde_json::Value::from(minted_at - 60));
    assert_eq!(claims["exp"], serde_json::Value::from(minted_at + 600));
    assert_eq!(claims["iss"], serde_json::Value::from("123"));
    assert_eq!(claims.as_object().unwrap().len(), 3);
    let header = jsonwebtoken::decode_header(assertion.as_str()).unwrap();
    assert_eq!(header.alg, jsonwebtoken::Algorithm::RS256);
}

#[test]
fn an_assertion_no_longer_verifies_after_it_expired() {
    let keys = keys();
    let minted_at = now() - 601;
    let assertion = mint_assertion_at(&keys.private, 123, minted_at).unwrap();
    let refused = claims_of(assertion.as_str(), &keys.public_pem).unwrap_err();
    assert_eq!(refused.kind(), &jsonwebtoken::errors::ErrorKind::ExpiredSignature);
    let claims = unverified_claims_of(assertion.as_str(), &keys.public_pem);
    assert_eq!(claims["exp"], serde_json::Value::from(minted_at + 600));

    let still_good = mint_assertion_at(&keys.private, 123, now() - 590).unwrap();
    assert!(claims_of(still_good.as_str(), &keys.public_pem).is_ok());
}

#[test]
fn an_assertion_does_not_verify_under_another_key_or_when_altered() {
    let keys = keys();
    let assertion = mint_assertion_at(&keys.private, 123, now()).unwrap();
    let text = assertion.as_str();
    assert!(claims_of(text, &keys.public_pem).is_ok());

    let (message, _) = text.rsplit_once('.').unwrap();
    let other = mint_assertion_at(&keys.private, 124, now()).unwrap();
    let (_, other_signature) = other.as_str().rsplit_once('.').unwrap();
    let spliced = format!("{message}.{other_signature}");
    assert!(claims_of(&spliced, &keys.public_pem).is_err());

    let stranger = stranger_public_pem();
    assert_ne!(stranger, keys.public_pem);
    let refused = claims_of(text, &stranger).unwrap_err();
    assert_eq!(refused.kind(), &jsonwebtoken::errors::ErrorKind::InvalidSignature);
}

#[test]
fn minting_depends_on_the_time_and_the_app_alone() {
    let keys = keys();
    let first = mint_assertion_at(&keys.private, 123, 1_700_000_000).unwrap();
    let second = mint_assertion_at(&keys.private, 123, 1_700_000_000).unwrap();
    let later = mint_assertion_at(&keys.private, 123, 1_700_000_001).unwrap();
    let other_app = mint_assertion_at(&keys.private, 124, 1_700_000_000).unwrap();
    assert_eq!(first, second);
    assert_ne!(first, later);
    assert_ne!(first, other_app);
    assert_eq!(first.as_str().split('.').count(), 3);
    let claims = unverified_claims_of(first.as_str(), &keys.public_pem);
    assert_eq!(claims["iat"], serde_json::Value::from(1_699_999_940i64));
    assert_eq!(claims["exp"], serde_json::Value::from(1_700_000_600i64));
    assert_eq!(claims["iss"], serde_json::Value::from("123"));
}

#[test]
fn minting_now_uses_the_system_clock() {
    let keys = keys();
    let before = now();
    let assertion = mint_assertion(&keys.private, 42).unwrap();
    let after = now();
    let claims = claims_of(assertion.as_str(), &keys.public_pem).unwrap();
    let issued_at = claims["iat"].as_i64().unwrap();
    let expires_at = claims["exp"].as_i64().unwrap();
    assert!(before - 60 <= issued_at && issued_at <= after - 60);
    assert_eq!(expires_at - issued_at, 660);
    assert_eq!(claims["iss"], serde_json::Value::from("42"));
}

#[test]
fn a_key_file_without_an_rsa_key_is_refused() {
    let other_block = b"-----BEGIN MESSAGE-----\nAAAA\n-----END MESSAGE-----\n";
    for contents in [&b""[..], b"not a key", b"-----BEGIN", other_block] {
        assert!(matches!(
            PrivateKey::from_pem(contents.to_vec()),
            Err(Error::ParsePrivateGitHubAppKeyFile)
        ));
    }
    let (private_pem, _) = key_pair();
    assert!(PrivateKey::from_pem(private_pem.into_bytes()).is_ok());
}

#[test]
fn a_public_key_reads_but_cannot_sign() {
    let (_, public_pem) = key_pair();
    let key = PrivateKey::from_pem(public_pem.into_bytes()).unwrap();
    assert_eq!(mint_assertion_at(&key, 123, 1_700_000_000), Err(Error::CreateJwt));
    assert_eq!(mint_assertion(&key, 123), Err(Error::CreateJwt));
    assert_eq!(begin_at(&config(), &key, 1_700_000_000), Err(Error::CreateJwt));
    assert_eq!(begin(&config(), &key), Err(Error::CreateJwt));
}

#[test]
fn bootstrap_endpoints_name_the_organization_and_the_installation() {
    assert_eq!(installation_endpoint("acme"), "orgs/acme/installation");
    assert_eq!(installation_endpoint(""), "orgs//installation");
    assert_eq!(access_tokens_endpoint(55), "app/installations/55/access_tokens");
    assert_eq!(access_tokens_endpoint(0), "app/installations/0/access_tokens");
    assert_eq!(
        access_tokens_endpoint(u64::MAX),
        "app/installations/18446744073709551615/access_tokens"
    );
}

#[test]
fn a_bootstrap_asks_for_the_installation_first() {
    let keys = keys();
    let call = begin_at(&config(), &keys.private, 1_700_000_000).unwrap();
    assert_eq!(call.method, Method::Get);
    assert_eq!(call.endpoint, "orgs/acme/installation");
    assert_eq!(call.bearer, mint_assertion_at(&keys.private, 123, 1_700_000_000).unwrap());

    let call = begin(&config(), &keys.private).unwrap();
    assert_eq!(call.method, Method::Get);
    assert_eq!(call.endpoint, "orgs/acme/installation");
    assert_eq!(
        claims_of(call.bearer.as_str(), &keys.public_pem).unwrap()["iss"],
        serde_json::Value::from("123")
    );

    let direct = find_installation("acme", AccessToken::new("jwt".to_string()));
    assert_eq!(
        direct,
        BootstrapCall {
            method: Method::Get,
            endpoint: "orgs/acme/installation".to_string(),
            bearer: AccessToken::new("jwt".to_string()),
        }
    );
}

#[test]
fn a_bootstrap_asks_for_the_token_with_the_same_assertion() {
    let assertion = AccessToken::new("jwt".to_string());
    assert_eq!(
        request_access_token(assertion, Ok(55)),
        Ok(BootstrapCall {
            method: Method::Post,
            endpoint: "app/installations/55/access_tokens".to_string(),
            bearer: AccessToken::new("jwt".to_string()),
        })
    );
}

#[test]
fn bootstrap_failures_are_wrapped_with_their_cause() {
    let assertion = AccessToken::new("jwt".to_string());
    assert_eq!(
        request_access_token(assertion, Err(Error::DecodeGitHubApiResponseBody)),
        Err(Error::ObtainGitHubAppInstallationToken(Box::new(
            Error::DecodeGitHubApiResponseBody
        )))
    );
    let not_found = || Error::ReceivedGitHubApiClientError {
        status_code: 404,
        url: "https://api.github.com/orgs/acme/installation".to_string(),
        response_body: "{\"message\":\"Not Found\"}".to_string(),
    };
    assert_eq!(
        installation_token(Err(not_found())),
        Err(Error::ObtainGitHubAppInstallationToken(Box::new(not_found())))
    );
    assert_eq!(
        installation_token(Ok("abc".to_string())),
        Ok(AccessToken::new("abc".to_string()))
    );
}
