//! What the service does about an inbound webhook request.
//!
//! A payload is admitted once its signature holds and it decodes, in that
//! order: bytes that nobody vouches for are not decoded. A ref creation event
//! matters when it creates the default branch of a repository: the branch is
//! then protected and, if that went well, its creator told so in an issue.
//! Every other event is acknowledged and ignored. A request that was turned
//! away before it reached that point is answered by its cause.

use crate::error::Error;
use crate::github_api::request::Method;
use crate::github_api::signature::signature_verdict;
use crate::github_api::signature::verify_payload_signature;
use crate::models::IgnoreResponse;
use crate::models::ProtectBranchRequest;
use crate::models::RefCreationEventPayload;
use crate::models::RefType;
use crate::models::RequiredPullRequestReviews;
use vstd::prelude::*;
use vstd::string::StringExecFns;
use vstd::string::StringSliceAdditionalSpecFns;

verus! {

/// The title of the issue that tells the creator of a branch about its protection.
pub const ISSUE_TITLE: &'static str = "Branch protection automatically set up";

/// Everything of the issue text that follows the second mention of the branch.
pub const ISSUE_BODY_TAIL: &'static str =
    ") was automatically protected to comply with our corporate policies. Please submit pull requests in order to contribute changes, as direct pushes to this branch are not allowed. Every pull request needs to be approved by at least one person before it can be merged. Please review the [branch protection rules in the repository settings](../settings/branches) and extend them as necessary.\n\nThis issue is just for your information and can be closed after reviewing the branch protection rules.";

/// The acknowledgement of an event that leads to nothing.
pub const IGNORED_MESSAGE: &'static str = "not listening to this ref creation event";

/// The acknowledgement of an event that leads to a protected branch.
pub const ACCEPTED_MESSAGE: &'static str =
    "creating branch protection rules and notifying creator of the default branch";

/// Whether the event reports that the default branch was created.
pub open spec fn concerns_default_branch(payload: RefCreationEventPayload) -> bool {
    payload.ref_type == RefType::Branch && payload.ref_@ == payload.master_branch@
}

/// Where the protection of a branch is set.
pub open spec fn protection_endpoint_text(
    organization: Seq<char>,
    repository: Seq<char>,
    branch: Seq<char>,
) -> Seq<char> {
    "repos/"@ + organization + "/"@ + repository + "/branches/"@ + branch + "/protection"@
}

/// Where an issue is opened in a repository.
pub open spec fn issues_endpoint_text(organization: Seq<char>, repository: Seq<char>) -> Seq<char> {
    "repos/"@ + organization + "/"@ + repository + "/issues"@
}

/// The text of the issue, addressed to the creator of the branch.
pub open spec fn issue_body_text(creator: Seq<char>, branch: Seq<char>) -> Seq<char> {
    "@"@ + creator + ": The default branch [`"@ + branch + "`](../tree/"@ + branch
        + ISSUE_BODY_TAIL@
}

/// The rule set put on a new default branch: nobody pushes directly, not
/// even administrators, and every pull request needs a review.
pub open spec fn default_protection() -> ProtectBranchRequest {
    ProtectBranchRequest {
        required_status_checks: None,
        enforce_admins: Some(true),
        required_pull_request_reviews: Some(RequiredPullRequestReviews {  }),
        restrictions: None,
    }
}

/// The call that protects a branch.
#[derive(Debug, PartialEq, Eq)]
pub struct ProtectionCall {
    pub method: Method,
    pub endpoint: String,
    pub request: ProtectBranchRequest,
}

/// The call that opens the issue which tells the creator of a branch about
/// its protection.
#[derive(Debug, PartialEq, Eq)]
pub struct IssueCall {
    pub method: Method,
    pub endpoint: String,
    pub title: String,
    pub body: String,
}

/// The calls that a new default branch leads to: `protection` first, and
/// `issue` only once `protection` went well.
#[derive(Debug, PartialEq, Eq)]
pub struct ProtectionPlan {
    pub protection: ProtectionCall,
    pub issue: IssueCall,
}

/// What a ref creation event leads to.
#[derive(Debug, PartialEq, Eq)]
pub enum RefCreationPlan {
    Ignore,
    Protect(ProtectionPlan),
}

/// Whether `plan` is what `payload` leads to.
pub open spec fn is_plan_for(plan: RefCreationPlan, payload: RefCreationEventPayload) -> bool {
    match plan {
        RefCreationPlan::Ignore => !concerns_default_branch(payload),
        RefCreationPlan::Protect(steps) => {
            &&& concerns_default_branch(payload)
            &&& steps.protection.method == Method::Put
            &&& steps.protection.endpoint@ == protection_endpoint_text(
                payload.repository.owner.login@,
                payload.repository.name@,
                payload.ref_@,
            )
            &&& steps.protection.request == default_protection()
            &&& steps.issue.method == Method::Post
            &&& steps.issue.endpoint@ == issues_endpoint_text(
                payload.repository.owner.login@,
                payload.repository.name@,
            )
            &&& steps.issue.title@ == ISSUE_TITLE@
            &&& steps.issue.body@ == issue_body_text(payload.sender.login@, payload.ref_@)
        },
    }
}

/// Decides what a ref creation event leads to.
pub fn plan_ref_creation(payload: &RefCreationEventPayload) -> (plan: RefCreationPlan)
    ensures
        is_plan_for(plan, *payload),
{
    let is_branch = match payload.ref_type {
        RefType::Branch => true,
        RefType::Tag => false,
    };
    if !is_branch || payload.ref_ != payload.master_branch {
        return RefCreationPlan::Ignore;
    }
    let branch = payload.ref_.as_str();
    let creator = payload.sender.login.as_str();
    let organization = payload.repository.owner.login.as_str();
    let repository = payload.repository.name.as_str();
    let protection = ProtectionCall {
        method: Method::Put,
        endpoint: String::from_str("repos/").concat(organization).concat("/").concat(
            repository,
        ).concat("/branches/").concat(branch).concat("/protection"),
        request: ProtectBranchRequest {
            required_status_checks: None,
            enforce_admins: Some(true),
            required_pull_request_reviews: Some(RequiredPullRequestReviews {  }),
            restrictions: None,
        },
    };
    let issue = IssueCall {
        method: Method::Post,
        endpoint: String::from_str("repos/").concat(organization).concat("/").concat(
            repository,
        ).concat("/issues"),
        title: String::from_str(ISSUE_TITLE),
        body: String::from_str("@").concat(creator).concat(": The default branch [`").concat(
            branch,
        ).concat("`](../tree/").concat(branch).concat(ISSUE_BODY_TAIL),
    };
    RefCreationPlan::Protect(ProtectionPlan { protection, issue })
}

/// Decides what follows the protection call of a plan: the issue call where
/// the branch was protected, nothing where it was not. Nothing follows the
/// issue call, however it ends.
pub fn after_protection(plan: ProtectionPlan, protected: &Result<IgnoreResponse, Error>) -> (next:
    Option<IssueCall>)
    ensures
        match *protected {
            Ok(_) => next == Some(plan.issue),
            Err(_) => next is None,
        },
{
    match protected {
        Ok(_) => Some(plan.issue),
        Err(_) => None,
    }
}

/// What a payload that is vouched for is admitted as: the decoded event, or
/// a malformed payload where the bytes did not decode.
pub open spec fn admission<T>(decoded: Option<T>) -> Result<T, Error> {
    match decoded {
        Some(event) => Ok(event),
        None => Err(Error::DecodePayloadBody),
    }
}

/// Admits what came of decoding a payload whose signature holds.
pub fn decoded_payload<T>(decoded: Option<T>) -> (admitted: Result<T, Error>)
    ensures
        admitted == admission(decoded),
{
    match decoded {
        Some(event) => Ok(event),
        None => Err(Error::DecodePayloadBody),
    }
}

/// Admits an inbound payload to the handlers. The signature is checked
/// first, on the raw bytes: a payload that fails it is turned away with the
/// error of the check and never decoded. Only then `decode` runs, which
/// hands back the decoded payload or nothing where the bytes do not decode.
pub fn admit_payload<T, F: FnOnce() -> Option<T>>(
    provided_signature: Option<String>,
    payload: &[u8],
    secret: Option<&str>,
    decode: F,
) -> (admitted: Result<T, Error>)
    requires
        decode.requires(()),
    ensures
        match signature_verdict(
            match provided_signature {
                Some(header) => Some(header@),
                None => None,
            },
            payload@,
            match secret {
                Some(key) => Some(key.spec_bytes()),
                None => None,
            },
        ) {
            Err(error) => admitted == Err::<T, Error>(error),
            Ok(_) => exists|decoded: Option<T>| #[trigger]
                decode.ensures((), decoded) && admitted == admission(decoded),
        },
{
    match verify_payload_signature(provided_signature, payload, secret) {
        Err(error) => Err(error),
        Ok(_) => decoded_payload(decode()),
    }
}

/// Whether a reply informs or reports an error.
#[derive(Debug, Clone, Copy, PartialEq, Eq)]
pub enum ReplyKind {
    Info,
    Error,
}

/// The answer to a webhook request: a status and one message, sent as the
/// `info` or as the `error` member of a JSON object.
#[derive(Debug, Clone, Copy, PartialEq, Eq)]
pub struct Reply {
    pub status: u16,
    pub kind: ReplyKind,
    pub message: &'static str,
}

/// A reply informs exactly when its status is a success.
pub open spec fn kind_of_status(status: u16) -> ReplyKind {
    if 200 <= status < 300 {
        ReplyKind::Info
    } else {
        ReplyKind::Error
    }
}

/// The answer to a ref creation event, sent at once, before any of the
/// plan's calls is made.
pub fn acknowledge(plan: &RefCreationPlan) -> (reply: Reply)
    ensures
        reply.status == 200,
        reply.kind == ReplyKind::Info,
        reply.message@ == (match *plan {
            RefCreationPlan::Ignore => IGNORED_MESSAGE@,
            RefCreationPlan::Protect(_) => ACCEPTED_MESSAGE@,
        }),
{
    match plan {
        RefCreationPlan::Ignore => Reply {
            status: 200,
            kind: ReplyKind::Info,
            message: IGNORED_MESSAGE,
        },
        RefCreationPlan::Protect(_) => Reply {
            status: 200,
            kind: ReplyKind::Info,
            message: ACCEPTED_MESSAGE,
        },
    }
}

/// Why a request was turned away. Several causes may hold at once; the
/// first in the order of the fields decides the answer.
#[derive(Debug, PartialEq, Eq)]
pub struct RejectionCauses {
    /// No route matched.
    pub not_found: bool,
    /// The method is not `POST`.
    pub method_not_allowed: bool,
    /// The body is larger than the boundary admits.
    pub payload_too_large: bool,
    /// The event-type header is missing.
    pub missing_header: bool,
    /// The event-type header names an event the service does not act on.
    pub invalid_header: bool,
    /// The payload was turned away by this library.
    pub failure: Option<Error>,
}

/// The status that answers a rejection.
pub open spec fn rejection_status(causes: RejectionCauses) -> u16 {
    if causes.not_found {
        404
    } else if causes.method_not_allowed {
        405
    } else if causes.payload_too_large {
        400
    } else if causes.missing_header {
        400
    } else if causes.invalid_header {
        200
    } else {
        match causes.failure {
            Some(Error::DecodePayloadBody) => 400,
            Some(Error::MissingPayloadSignature) => 400,
            Some(Error::InvalidPayloadSignature) => 400,
            _ => 500,
        }
    }
}

/// The message that answers a rejection.
pub open spec fn rejection_message(causes: RejectionCauses) -> Seq<char> {
    if causes.not_found {
        "not found"@
    } else if causes.method_not_allowed {
        "method not allowed"@
    } else if causes.payload_too_large {
        "payload too large"@
    } else if causes.missing_header {
        "missing webhook event header"@
    } else if causes.invalid_header {
        "not listening to this webhook event"@
    } else {
        match causes.failure {
            Some(Error::DecodePayloadBody) => "malformed payload body"@,
            Some(Error::MissingPayloadSignature) => "missing payload signature"@,
            Some(Error::InvalidPayloadSignature) => "invalid payload signature"@,
            _ => "internal server error"@,
        }
    }
}

fn reply_with(status: u16, message: &'static str) -> (reply: Reply)
    ensures
        reply.status == status,
        reply.kind == kind_of_status(status),
        reply.message == message,
{
    let kind = if 200 <= status && status < 300 {
        ReplyKind::Info
    } else {
        ReplyKind::Error
    };
    Reply { status, kind, message }
}

/// The answer to a request that was turned away. Causes that nobody
/// foresaw get a general answer that gives nothing away.
pub fn rejection_reply(causes: &RejectionCauses) -> (reply: Reply)
    ensures
        reply.status == rejection_status(*causes),
        reply.kind == kind_of_status(reply.status),
        reply.message@ == rejection_message(*causes),
{
    if causes.not_found {
        reply_with(404, "not found")
    } else if causes.method_not_allowed {
        reply_with(405, "method not allowed")
    } else if causes.payload_too_large {
        reply_with(400, "payload too large")
    } else if causes.missing_header {
        reply_with(400, "missing webhook event header")
    } else if causes.invalid_header {
        reply_with(200, "not listening to this webhook event")
    } else {
        match &causes.failure {
            Some(Error::DecodePayloadBody) => reply_with(400, "malformed payload body"),
            Some(Error::MissingPayloadSignature) => reply_with(400, "missing payload signature"),
            Some(Error::InvalidPayloadSignature) => reply_with(400, "invalid payload signature"),
            _ => reply_with(500, "internal server error"),
        }
    }
}

} // verus!
