//! Data structures for the "Applicants" section of the API surface.

use vstd::prelude::*;

verus! {

use std::collections::HashMap;
use crate::actions::Questionnaire;

/// The review status of an applicant.
#[derive(Debug)]
pub struct ApplicantStatus {
    pub create_date: String,
    pub review_date: Option<String>,
    pub start_date: Option<String>,
    pub review_result: Option<ReviewResult>,
    pub review_status: String,
    pub moderation_comment: Option<String>,
    pub client_comment: Option<String>,
    pub reject_labels: Option<Vec<String>>,
}

/// The result of an applicant review.
#[derive(Debug)]
pub struct ReviewResult {
    pub review_answer: String,
    pub reject_type: Option<String>,
    pub review_reject_type: Option<String>,
    pub moderation_comment: Option<String>,
    pub client_comment: Option<String>,
    pub reject_labels: Option<Vec<String>>,
}

/// The details of one moderation step.
#[derive(Debug)]
pub struct ModerationDetails {
    pub id: String,
    pub state: i32,
    pub method: String,
    pub user_name: String,
    pub comment: Option<String>,
    pub time: String,
    pub pretty_time: String,
    pub is_auto: bool,
}

/// A request to add an applicant to the blocklist.
#[derive(Debug)]
pub struct BlacklistRequest {
    pub note: String,
}

/// A request for a token that shares an applicant with another client.
#[derive(Debug)]
pub struct ShareTokenRequest<'a> {
    pub level_name: &'a str,
    pub external_user_id: &'a str,
    pub ttl_in_secs: Option<u64>,
}

/// The response carrying a share token.
#[derive(Debug)]
pub struct ShareTokenResponse {
    pub token: String,
}

/// A request to import a shared applicant.
#[derive(Debug)]
pub struct ImportApplicantRequest<'a> {
    pub token: &'a str,
}

/// The response to importing a shared applicant.
#[derive(Debug)]
pub struct ImportApplicantResponse {
    pub applicant_id: String,
    pub inspection_id: String,
}

/// A request to ingest an applicant already verified elsewhere.
#[derive(Debug)]
pub struct IngestCompletedRequest {
    pub applicant: IngestApplicant,
    pub review: IngestReview,
    pub doc_sets: Option<Vec<IngestDocSet>>,
}

/// The applicant part of an ingestion request.
#[derive(Debug)]
pub struct IngestApplicant {
    pub external_user_id: String,
    pub email: Option<String>,
    pub phone: Option<String>,
    pub info: Option<crate::models::Info>,
}

/// The review part of an ingestion request.
#[derive(Debug)]
pub struct IngestReview {
    pub level_name: String,
    /// The review answer, "GREEN" or "RED".
    pub review_answer: String,
    pub reject_labels: Option<Vec<String>>,
    pub moderation_comment: Option<String>,
    pub client_comment: Option<String>,
}

/// One document set of an ingestion request.
#[derive(Debug)]
pub struct IngestDocSet {
    pub id_doc_set_type: String,
    pub fields: HashMap<String, String>,
}

/// A request to update an applicant's top-level data.
#[derive(Debug, Default)]
pub struct UpdateApplicantRequest {
    pub email: Option<String>,
    pub phone: Option<String>,
    pub questionnaires: Option<Vec<Questionnaire>>,
}

/// A request to change an applicant's extracted data.
#[derive(Debug)]
pub struct ChangeApplicantDataRequest {
    pub info: crate::models::Info,
}

/// The metadata part of a verification-document upload.
#[derive(Debug)]
pub struct AddDocumentMetadata<'a> {
    pub id_doc_type: &'a str,
    pub country: &'a str,
    pub first_name: Option<&'a str>,
    pub middle_name: Option<&'a str>,
    pub last_name: Option<&'a str>,
    pub dob: Option<&'a str>,
    pub place_of_birth: Option<&'a str>,
    pub issued_date: Option<&'a str>,
    pub valid_until: Option<&'a str>,
    pub number: Option<&'a str>,
    pub sub_type: Option<&'a str>,
    pub id_doc_sub_type: Option<&'a str>,
}

/// A request to simulate a review response in the sandbox.
#[derive(Debug)]
pub struct SimulateReviewRequest<'a> {
    pub review_answer: &'a str,
    pub reject_labels: Option<Vec<&'a str>>,
    pub review_reject_type: Option<&'a str>,
    pub client_comment: Option<&'a str>,
    pub moderation_comment: Option<&'a str>,
}

/// A request recording the consents an applicant accepted.
#[derive(Debug)]
pub struct AddConsentsRequest<'a> {
    pub accepted: Vec<&'a str>,
}

/// The response listing applicant-facing consents.
#[derive(Debug)]
pub struct ApplicantFacingConsentsResponse {
    pub consents: Vec<ApplicantFacingConsent>,
}

/// One applicant-facing consent.
#[derive(Debug)]
pub struct ApplicantFacingConsent {
    pub id: String,
    pub consent_type: String,
    pub required: bool,
    pub url: String,
    pub order_index: i32,
    pub enabled: bool,
    pub created_at: String,
    pub updated_at: String,
    pub level_name: String,
    pub title: String,
    pub description: String,
}

/// A note attached to an applicant.
#[derive(Debug)]
pub struct Note {
    pub id: String,
    pub created_at: String,
    pub applicant_id: String,
    pub agent: Agent,
    pub note: String,
    pub attachments: Vec<Attachment>,
}

/// The agent who wrote a note.
#[derive(Debug)]
pub struct Agent {
    pub client_id: String,
    pub email: String,
}

/// An attachment of a note.
#[derive(Debug)]
pub struct Attachment {
    pub id: String,
    pub file_name: String,
    pub created_at: String,
}

/// A request to add a note to an applicant.
#[derive(Debug)]
pub struct AddNoteRequest<'a> {
    pub note: &'a str,
}

/// A request to edit an applicant note.
#[derive(Debug)]
pub struct EditNoteRequest<'a> {
    pub note: &'a str,
}

/// The status of one verification step.
#[derive(Debug)]
pub struct VerificationStepStatus {
    pub review_answer: String,
    pub check_type: String,
}

/// One record of an applicant's review history.
#[derive(Debug)]
pub struct ReviewHistoryRecord {
    pub created_at: String,
    pub status: String,
    pub review_answer: String,
}

/// The information about one uploaded document image.
#[derive(Debug)]
pub struct ImageInfo {
    pub image_id: String,
    pub inspection_id: String,
    pub id_doc_type: String,
    pub added_at: String,
}

/// The identity data of an applicant in an AML case.
#[derive(Debug)]
pub struct AmlApplicantInfo {
    pub first_name: String,
    pub last_name: String,
    pub middle_name: Option<String>,
    pub dob: Option<String>,
    pub country: String,
}

/// The review state of an AML hit.
#[derive(Debug)]
pub struct AmlReview {
    pub status: String,
}

/// A request to update the review status of an AML hit.
#[derive(Debug)]
pub struct UpdateAmlHitReviewRequest<'a> {
    pub review_status: &'a str,
}

/// A request to deactivate an applicant profile.
#[derive(Debug)]
pub struct DeactivateApplicantRequest<'a> {
    pub review: DeactivateApplicantReview<'a>,
}

/// The review part of a deactivation request.
#[derive(Debug)]
pub struct DeactivateApplicantReview<'a> {
    pub moderation_comment: Option<&'a str>,
}

} // verus!
