//! The signed, short-lived assertion by which the app proves who it is.
//!
//! An assertion minted at time `T` names the app as issuer, claims to have
//! been issued at `T - 60` seconds, to allow for clock drift, and expires at
//! `T + 600` seconds. It is signed with RSA-SHA256 and never cached.

use crate::error::Error;
use crate::github_api::text::decimal;
use crate::github_api::text::decimal_string;
use crate::github_api::token::yields_token;
use crate::github_api::token::AccessToken;
use vstd::prelude::*;

verus! {

/// Seconds by which the issue time is put back.
pub const CLOCK_DRIFT_SECONDS: i64 = 60;

/// Seconds after minting at which an assertion expires.
pub const LIFETIME_SECONDS: i64 = 600;

/// Whether `jsonwebtoken` reads `pem` as PEM that holds an RSA key. It does
/// not tell a private key from a public one; only signing does.
pub uninterp spec fn rsa_key_pem(pem: Seq<u8>) -> bool;

/// The RS256 token over the three claims under the key in `pem`, where the
/// key can sign.
pub uninterp spec fn rs256_assertion(
    pem: Seq<u8>,
    issued_at: int,
    expires_at: int,
    issuer: Seq<char>,
) -> Option<Seq<char>>;

/// The claims of an app assertion, in seconds since the Unix epoch.
#[derive(Debug, PartialEq, Eq)]
pub struct JwtClaims {
    pub issued_at: i64,
    pub expires_at: i64,
    pub issuer: String,
}

impl JwtClaims {
    /// The claims of an assertion minted at `now` for the app `app_id`.
    pub fn new(now: i64, app_id: u64) -> (claims: JwtClaims)
        requires
            i64::MIN + CLOCK_DRIFT_SECONDS <= now <= i64::MAX - LIFETIME_SECONDS,
        ensures
            claims.issued_at == now - CLOCK_DRIFT_SECONDS,
            claims.expires_at == now + LIFETIME_SECONDS,
            claims.issuer@ == decimal(app_id as nat),
    {
        JwtClaims {
            issued_at: now - CLOCK_DRIFT_SECONDS,
            expires_at: now + LIFETIME_SECONDS,
            issuer: decimal_string(app_id),
        }
    }
}

/// Calls `jsonwebtoken::EncodingKey::from_rsa_pem` and keeps only whether
/// it accepted the bytes.
#[verifier::external_body]
fn reads_as_rsa_pem(pem: &[u8]) -> (accepted: bool)
    ensures
        accepted == rsa_key_pem(pem@),
{
    jsonwebtoken::EncodingKey::from_rsa_pem(pem).is_ok()
}

/// Calls `jsonwebtoken::encode` with an RS256 header, the claims under their
/// registered names `iat`, `exp` and `iss`, and the key that
/// `EncodingKey::from_rsa_pem` reads from `pem`. The contract names the token;
/// there is none where the key was not read or could not sign.
#[verifier::external_body]
fn encode_rs256(pem: &[u8], claims: &JwtClaims) -> (token: Option<String>)
    ensures
        match token {
            Some(text) => rs256_assertion(
                pem@,
                claims.issued_at as int,
                claims.expires_at as int,
                claims.issuer@,
            ) == Some(text@),
            None => rs256_assertion(
                pem@,
                claims.issued_at as int,
                claims.expires_at as int,
                claims.issuer@,
            ) is None,
        },
{
    let key = jsonwebtoken::EncodingKey::from_rsa_pem(pem).ok()?;
    let mut fields = serde_json::Map::new();
    fields.insert("iat".to_string(), claims.issued_at.into());
    fields.insert("exp".to_string(), claims.expires_at.into());
    fields.insert("iss".to_string(), claims.issuer.as_str().into());
    let header = jsonwebtoken::Header::new(jsonwebtoken::Algorithm::RS256);
    jsonwebtoken::encode(&header, &fields, &key).ok()
}

/// Calls `chrono::Utc::now` and takes its `timestamp`: whole seconds since
/// the Unix epoch, which `now` takes from a system clock that is not before
/// the epoch and keeps within the years that chrono can represent.
#[verifier::external_body]
fn unix_time_now() -> (seconds: i64)
    ensures
        0 <= seconds < 8_300_000_000_000,
{
    chrono::Utc::now().timestamp()
}

/// The app's RSA private key, as the PEM text it was configured with.
pub struct PrivateKey {
    pem: Vec<u8>,
}

impl View for PrivateKey {
    type V = Seq<u8>;

    closed spec fn view(&self) -> Seq<u8> {
        self.pem@
    }
}

impl PrivateKey {
    #[verifier::type_invariant]
    spec fn holds_rsa_key(self) -> bool {
        rsa_key_pem(self.pem@)
    }

    /// Accepts the contents of a key file when they read as an RSA key. A
    /// key that reads but cannot sign shows when an assertion is minted.
    pub fn from_pem(pem: Vec<u8>) -> (key: Result<PrivateKey, Error>)
        ensures
            key is Ok <==> rsa_key_pem(pem@),
            key matches Ok(accepted) ==> accepted@ == pem@,
            key matches Err(error) ==> error == Error::ParsePrivateGitHubAppKeyFile,
    {
        if reads_as_rsa_pem(pem.as_slice()) {
            Ok(PrivateKey { pem })
        } else {
            Err(Error::ParsePrivateGitHubAppKeyFile)
        }
    }
}

/// The assertion for `app_id` minted at `now`, where the key can sign.
pub open spec fn assertion_at(pem: Seq<u8>, app_id: u64, now: int) -> Option<Seq<char>> {
    rs256_assertion(
        pem,
        now - CLOCK_DRIFT_SECONDS,
        now + LIFETIME_SECONDS,
        decimal(app_id as nat),
    )
}

/// What minting at `now` hands back: the assertion as a bearer credential,
/// or the signing error where the key cannot sign.
pub open spec fn minted(
    result: Result<AccessToken, Error>,
    pem: Seq<u8>,
    app_id: u64,
    now: int,
) -> bool {
    match assertion_at(pem, app_id, now) {
        Some(assertion) => yields_token(result, assertion),
        None => result == Err::<AccessToken, Error>(Error::CreateJwt),
    }
}

/// Mints the assertion for the given time.
pub fn mint_assertion_at(key: &PrivateKey, app_id: u64, now: i64) -> (result: Result<
    AccessToken,
    Error,
>)
    requires
        i64::MIN + CLOCK_DRIFT_SECONDS <= now <= i64::MAX - LIFETIME_SECONDS,
    ensures
        minted(result, key@, app_id, now as int),
{
    let claims = JwtClaims::new(now, app_id);
    match encode_rs256(key.pem.as_slice(), &claims) {
        Some(text) => Ok(AccessToken::new(text)),
        None => Err(Error::CreateJwt),
    }
}

/// Mints the assertion for the present moment, read from the system clock.
pub fn mint_assertion(key: &PrivateKey, app_id: u64) -> (result: Result<AccessToken, Error>)
    ensures
        exists|now: int| 0 <= now && #[trigger] minted(result, key@, app_id, now),
{
    mint_assertion_at(key, app_id, unix_time_now())
}

} // verus!
