//! Tests of the data-model types and their wire renderings.

use sumsub_api::checks::CheckType;
use sumsub_api::models::{CreateApplicantRequest, FixedInfo};
use sumsub_api::travel_rule::OwnershipStatus;
use sumsub_api::webhooks::{ApplicantReviewedPayload, WebhookPayload, WebhookReview, WebhookReviewResult};

#[test]
fn check_types_render_their_wire_names() {
    assert_eq!(CheckType::Poa.to_string(), "POA");
    assert_eq!(CheckType::SimilarSearch.to_string(), "SIMILAR_SEARCH");
    assert_eq!(CheckType::Tin.to_string(), "TIN");
    assert_eq!(CheckType::Company.to_string(), "COMPANY");
    assert_eq!(CheckType::BankCard.to_string(), "BANK_CARD");
    assert_eq!(CheckType::EmailConfirmation.to_string(), "EMAIL_CONFIRMATION");
    assert_eq!(CheckType::PhoneConfirmation.to_string(), "PHONE_CONFIRMATION");
    assert_eq!(CheckType::IpCheck.to_string(), "IP_CHECK");
    assert_eq!(CheckType::Nfc.to_string(), "NFC");
}

#[test]
fn ownership_statuses_render_their_wire_names() {
    assert_eq!(OwnershipStatus::Confirmed.to_string(), "confirmed");
    assert_eq!(OwnershipStatus::Rejected.to_string(), "rejected");
}

#[test]
fn applicant_request_builds_from_default() {
    let request = CreateApplicantRequest {
        external_user_id: String::from("user-1"),
        fixed_info: Some(FixedInfo {
            country: Some(String::from("DEU")),
            first_name: Some(String::from("Jane")),
            ..FixedInfo::default()
        }),
        ..CreateApplicantRequest::default()
    };
    assert_eq!(request.external_user_id, "user-1");
    assert!(request.email.is_none());
    let fixed = request.fixed_info.unwrap();
    assert_eq!(fixed.country.as_deref(), Some("DEU"));
    assert!(fixed.company_info.is_none());
}

#[test]
fn webhook_payload_carries_review_answer() {
    let payload = WebhookPayload::ApplicantReviewed(ApplicantReviewedPayload {
        applicant_id: String::from("some_applicant_id"),
        inspection_id: String::from("some_inspection_id"),
        correlation_id: String::from("some_correlation_id"),
        level_name: String::from("basic-kyc"),
        external_user_id: Some(String::from("some_external_id")),
        review: WebhookReview {
            review_id: String::from("some_review_id"),
            attempt_id: String::from("some_attempt_id"),
            attempt_cnt: 1,
            elapsed_since_pending_ms: 1000,
            create_date: String::from("2023-10-26T10:00:00Z"),
            review_status: String::from("completed"),
            review_result: Some(WebhookReviewResult {
                review_answer: String::from("GREEN"),
                reject_labels: None,
                moderation_comment: None,
                client_comment: None,
                review_reject_type: None,
            }),
        },
        created_at: String::from("2023-10-26T10:00:00Z"),
        applicant_type: String::from("individual"),
    });
    match payload {
        WebhookPayload::ApplicantReviewed(p) => {
            assert_eq!(p.applicant_id, "some_applicant_id");
            assert_eq!(p.review.review_result.unwrap().review_answer, "GREEN");
        }
        _ => panic!("Expected ApplicantReviewed payload"),
    }
}
