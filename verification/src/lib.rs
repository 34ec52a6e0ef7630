//! A GitHub App API client core: webhook authentication, app assertions,
//! installation-token sharing, retry scheduling and response classification.

pub mod config;
pub mod error;
pub mod github_api;
pub mod models;
pub mod webhook;

pub use config::Config;
pub use error::Error;
pub use error::RequestFailure;
pub use models::CreateIssueRequest;
pub use models::CreateIssueResponse;
pub use models::IgnoreResponse;
pub use models::ProtectBranchRequest;
pub use models::RefCreationEventPayload;
pub use models::RefType;
pub use models::Repository;
pub use models::RequiredPullRequestReviews;
pub use models::UnsupportedField;
pub use models::User;
