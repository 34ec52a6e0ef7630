//! The authenticated API client core and the inbound webhook check.

pub mod bootstrap;
pub mod executor;
pub mod jwt;
pub mod request;
pub mod retry;
pub mod settings;
pub mod signature;
pub mod text;
pub mod token;

pub use bootstrap::BootstrapCall;
pub use executor::FirstAttempt;
pub use jwt::JwtClaims;
pub use jwt::PrivateKey;
pub use request::Method;
pub use request::RawResponse;
pub use request::RequestHead;
pub use retry::AttemptOutcome;
pub use retry::RetryDecision;
pub use retry::RetryPolicy;
pub use retry::SendFailure;
pub use retry::TransportStep;
pub use settings::Config;
pub use signature::verify_payload_signature;
pub use token::AccessToken;
pub use token::RefreshDecision;
pub use token::TokenCell;
