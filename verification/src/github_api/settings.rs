//! Configuration of the GitHub API client.

use vstd::prelude::*;
use vstd::string::StringExecFns;

verus! {

/// The base URL of the API of GitHub.com.
pub const GITHUB_COM_API_BASE_URL: &'static str = "https://api.github.com/";

/// Configuration of the GitHub API client. The client is bound to the one
/// organization named here for as long as it lives.
#[derive(Debug, PartialEq, Eq)]
pub struct Config {
    /// The base URL of the GitHub API server, with a trailing slash.
    pub base_url: String,
    /// The slug of the organization this service watches, as included in URLs.
    pub organization: String,
    /// Path to the private key that was generated for the GitHub App.
    pub private_key_path: String,
    /// The numeric App ID of this GitHub App.
    pub app_id: u64,
    /// The GitHub App's webhook secret, if inbound payloads are to be verified.
    pub webhook_secret: Option<String>,
}

impl Config {
    /// A configuration with every option given but, possibly, the base URL,
    /// which then is that of GitHub.com.
    pub fn new(
        base_url: Option<String>,
        organization: String,
        private_key_path: String,
        app_id: u64,
        webhook_secret: Option<String>,
    ) -> (config: Config)
        ensures
            config.base_url@ == (match base_url {
                Some(url) => url@,
                None => GITHUB_COM_API_BASE_URL@,
            }),
            config.organization == organization,
            config.private_key_path == private_key_path,
            config.app_id == app_id,
            config.webhook_secret == webhook_secret,
    {
        let base_url = match base_url {
            Some(url) => url,
            None => String::from_str(GITHUB_COM_API_BASE_URL),
        };
        Config { base_url, organization, private_key_path, app_id, webhook_secret }
    }

    /// The webhook secret as the signature check takes it.
    pub fn webhook_secret(&self) -> (secret: Option<&str>)
        ensures
            match secret {
                Some(text) => self.webhook_secret matches Some(configured) && text@ == configured@,
                None => self.webhook_secret is None,
            },
    {
        match &self.webhook_secret {
            Some(text) => Some(text.as_str()),
            None => None,
        }
    }
}

} // verus!
