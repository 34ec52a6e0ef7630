//! How an installation access token is obtained.
//!
//! The app mints an assertion, asks with it for the installation of the
//! configured organization, and then, again with it, for an access token of
//! that installation. A failure of either call is reported as a failure to
//! obtain the token, with the cause inside.

use crate::error::Error;
use crate::github_api::jwt::mint_assertion;
use crate::github_api::jwt::mint_assertion_at;
use crate::github_api::jwt::minted;
use crate::github_api::jwt::PrivateKey;
use crate::github_api::jwt::CLOCK_DRIFT_SECONDS;
use crate::github_api::jwt::LIFETIME_SECONDS;
use crate::github_api::request::Method;
use crate::github_api::settings::Config;
use crate::github_api::text::decimal;
use crate::github_api::text::decimal_string;
use crate::github_api::token::yields_token;
use crate::github_api::token::AccessToken;
use vstd::prelude::*;
use vstd::string::StringExecFns;

verus! {

/// One of the two calls of a bootstrap, to be made with `bearer` as the
/// credential and without a body.
#[derive(Debug, PartialEq, Eq)]
pub struct BootstrapCall {
    pub method: Method,
    pub endpoint: String,
    pub bearer: AccessToken,
}

/// Where the installation of an organization is asked for.
pub open spec fn installation_endpoint_text(organization: Seq<char>) -> Seq<char> {
    "orgs/"@ + organization + "/installation"@
}

/// Where an access token of an installation is asked for.
pub open spec fn access_tokens_endpoint_text(installation_id: u64) -> Seq<char> {
    "app/installations/"@ + decimal(installation_id as nat) + "/access_tokens"@
}

/// The endpoint of the first call of a bootstrap.
pub fn installation_endpoint(organization: &str) -> (endpoint: String)
    ensures
        endpoint@ == installation_endpoint_text(organization@),
{
    String::from_str("orgs/").concat(organization).concat("/installation")
}

/// The endpoint of the second call of a bootstrap.
pub fn access_tokens_endpoint(installation_id: u64) -> (endpoint: String)
    ensures
        endpoint@ == access_tokens_endpoint_text(installation_id),
{
    let id = decimal_string(installation_id);
    String::from_str("app/installations/").concat(id.as_str()).concat("/access_tokens")
}

/// Whether `call` is the first call of a bootstrap for `organization` that
/// presents `assertion`.
pub open spec fn is_installation_call(
    call: BootstrapCall,
    organization: Seq<char>,
    assertion: Seq<char>,
) -> bool {
    &&& call.method == Method::Get
    &&& call.endpoint@ == installation_endpoint_text(organization)
    &&& call.bearer@ == assertion
}

/// Whether `call` is the second call of a bootstrap, for the installation
/// `installation_id`, that presents `assertion`.
pub open spec fn is_access_token_call(
    call: BootstrapCall,
    installation_id: u64,
    assertion: Seq<char>,
) -> bool {
    &&& call.method == Method::Post
    &&& call.endpoint@ == access_tokens_endpoint_text(installation_id)
    &&& call.bearer@ == assertion
}

/// Whether `result` opens the bootstrap that an app assertion minted at
/// `now` allows: the first call with that assertion, or the signing error.
pub open spec fn begun(
    result: Result<BootstrapCall, Error>,
    organization: Seq<char>,
    pem: Seq<u8>,
    app_id: u64,
    now: int,
) -> bool {
    match result {
        Ok(call) => {
            &&& call.method == Method::Get
            &&& call.endpoint@ == installation_endpoint_text(organization)
            &&& minted(Ok(call.bearer), pem, app_id, now)
        },
        Err(error) => minted(Err(error), pem, app_id, now),
    }
}

/// The first call, with the assertion to present.
pub fn find_installation(organization: &str, assertion: AccessToken) -> (call: BootstrapCall)
    ensures
        is_installation_call(call, organization@, assertion@),
{
    BootstrapCall {
        method: Method::Get,
        endpoint: installation_endpoint(organization),
        bearer: assertion,
    }
}

/// Opens a bootstrap at the given time.
pub fn begin_at(config: &Config, key: &PrivateKey, now: i64) -> (result: Result<
    BootstrapCall,
    Error,
>)
    requires
        i64::MIN + CLOCK_DRIFT_SECONDS <= now <= i64::MAX - LIFETIME_SECONDS,
    ensures
        begun(result, config.organization@, key@, config.app_id, now as int),
{
    match mint_assertion_at(key, config.app_id, now) {
        Ok(assertion) => Ok(find_installation(config.organization.as_str(), assertion)),
        Err(error) => Err(error),
    }
}

/// Opens a bootstrap now.
pub fn begin(config: &Config, key: &PrivateKey) -> (result: Result<BootstrapCall, Error>)
    ensures
        exists|now: int|
            0 <= now && #[trigger] begun(result, config.organization@, key@, config.app_id, now),
{
    let minted_now = mint_assertion(key, config.app_id);
    let ghost now = choose|now: int|
        0 <= now && #[trigger] minted(minted_now, key@, config.app_id, now);
    let result = match minted_now {
        Ok(assertion) => Ok(find_installation(config.organization.as_str(), assertion)),
        Err(error) => Err(error),
    };
    assert(begun(result, config.organization@, key@, config.app_id, now));
    result
}

/// The second call, once the first has been answered: with the same
/// assertion, for the installation that was found.
pub fn request_access_token(assertion: AccessToken, found: Result<u64, Error>) -> (result: Result<
    BootstrapCall,
    Error,
>)
    ensures
        match found {
            Ok(installation_id) => match result {
                Ok(call) => is_access_token_call(call, installation_id, assertion@),
                Err(_) => false,
            },
            Err(cause) => result == Err::<BootstrapCall, Error>(
                Error::ObtainGitHubAppInstallationToken(Box::new(cause)),
            ),
        },
{
    match found {
        Ok(installation_id) => Ok(
            BootstrapCall {
                method: Method::Post,
                endpoint: access_tokens_endpoint(installation_id),
                bearer: assertion,
            },
        ),
        Err(cause) => Err(Error::ObtainGitHubAppInstallationToken(Box::new(cause))),
    }
}

/// The end of a bootstrap, once the second call has been answered.
pub fn installation_token(issued: Result<String, Error>) -> (result: Result<AccessToken, Error>)
    ensures
        match issued {
            Ok(text) => yields_token(result, text@),
            Err(cause) => result == Err::<AccessToken, Error>(
                Error::ObtainGitHubAppInstallationToken(Box::new(cause)),
            ),
        },
{
    match issued {
        Ok(text) => Ok(AccessToken::new(text)),
        Err(cause) => Err(Error::ObtainGitHubAppInstallationToken(Box::new(cause))),
    }
}

} // verus!
