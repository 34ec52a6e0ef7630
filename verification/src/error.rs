use vstd::prelude::*;

verus! {

/// Why a request that reached the transport produced no usable response.
#[derive(Debug, Clone, Copy, PartialEq, Eq)]
pub enum RequestFailure {
    /// The network kept failing until the retry budget was spent.
    Transport,
    /// The server answered with a 5xx status.
    ServerError { status_code: u16 },
}

/// All errors that may occur during initialization or while handling requests.
#[derive(Debug, PartialEq, Eq)]
pub enum Error {
    /// The configuration file could not be read.
    ReadConfigFile,
    /// The configuration file could not be parsed.
    ParseConfigFile,
    /// The HTTP client could not be created.
    CreateHttpClient,
    /// The private GitHub App key file could not be read.
    ReadPrivateGitHubAppKeyFile,
    /// The private GitHub App key file does not hold a usable RSA key.
    ParsePrivateGitHubAppKeyFile,
    /// The app assertion could not be built or signed.
    CreateJwt,
    /// One of the two calls that obtain an installation access token failed.
    ObtainGitHubAppInstallationToken(Box<Error>),
    /// The endpoint does not join with the base URL.
    ParseUrl,
    /// The request failed in the transport or on the server.
    MakeGitHubApiRequest(RequestFailure),
    /// The server rejected the request with a 4xx status.
    ReceivedGitHubApiClientError { status_code: u16, url: String, response_body: String },
    /// The response body is not JSON of the expected shape.
    DecodeGitHubApiResponseBody,
    /// The webhook payload is not JSON of the expected shape.
    DecodePayloadBody,
    /// A webhook secret is configured but the request carried no signature.
    MissingPayloadSignature,
    /// The signature does not match the payload, or names another algorithm.
    InvalidPayloadSignature,
}

} // verus!
