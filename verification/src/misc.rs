//! Data structures for miscellaneous endpoints.

use vstd::prelude::*;

verus! {

use crate::actions::RequiredIdDocs;

/// An audit trail event.
#[derive(Debug)]
pub struct AuditTrailEvent {
    pub ts: String,
    pub client_id: String,
    pub activity: String,
    pub subject_name: String,
    pub ip: String,
    pub user_agent: Option<String>,
    pub x_client_id: Option<String>,
    pub correlation_id: String,
    pub applicant_id: Option<String>,
    pub external_user_id: Option<String>,
    pub image_id: Option<String>,
    pub description: Option<String>,
}

/// The health status of the API.
#[derive(Debug)]
pub struct ApiHealthStatus {
    pub status: String,
}

/// A request for an applicant access token.
#[derive(Debug)]
pub struct GenerateAccessTokenRequest<'a> {
    pub level_name: &'a str,
    pub external_user_id: Option<&'a str>,
    pub ttl_in_secs: Option<u64>,
}

/// A request for an external WebSDK link.
#[derive(Debug)]
pub struct GenerateWebsdkLinkRequest<'a> {
    pub level_name: &'a str,
    pub external_user_id: Option<&'a str>,
    pub ttl_in_secs: Option<u64>,
}

/// The response carrying an external WebSDK link.
#[derive(Debug)]
pub struct GenerateWebsdkLinkResponse {
    pub url: String,
}

/// The response carrying an access token for a new applicant.
#[derive(Debug)]
pub struct NewApplicantAccessTokenResponse {
    pub token: String,
    pub user_id: String,
}

/// A request to send a verification message to an applicant.
#[derive(Debug)]
pub struct SendVerificationMessageRequest<'a> {
    pub lang: &'a str,
}

/// One verification level available to the client.
#[derive(Debug)]
pub struct AvailableLevel {
    pub name: String,
    pub title: String,
    pub review_strategy: String,
    pub required_id_docs: RequiredIdDocs,
}

} // verus!
