//! Data structures for applicant actions.

use vstd::prelude::*;

verus! {

use std::collections::HashMap;

/// A request to create a new applicant action.
#[derive(Debug, Default)]
pub struct CreateApplicantActionRequest {
    pub external_action_id: String,
    pub email: Option<String>,
    pub phone: Option<String>,
    pub payment_source: Option<PaymentSource>,
    pub questionnaires: Option<Vec<Questionnaire>>,
}

/// A payment source for an applicant action.
#[derive(Debug, Default)]
pub struct PaymentSource {
    pub fixed_info: PaymentSourceFixedInfo,
}

/// The fixed info of a payment source.
#[derive(Debug, Default)]
pub struct PaymentSourceFixedInfo {
    pub payment_type: String,
    pub institution_name: String,
    pub full_name: String,
    pub account_identifier: String,
    pub email: Option<String>,
}

/// A questionnaire attached to an applicant action.
#[derive(Debug, Default)]
pub struct Questionnaire {
    pub id: String,
    pub sections: HashMap<String, Section>,
}

/// One section of a questionnaire.
#[derive(Debug, Default)]
pub struct Section {
    pub items: HashMap<String, Item>,
}

/// One item of a questionnaire section.
#[derive(Debug, Default)]
pub struct Item {
    pub value: Option<String>,
    pub values: Option<Vec<String>>,
}

/// An applicant action.
#[derive(Debug)]
pub struct ApplicantAction {
    pub id: String,
    pub created_at: String,
    pub client_id: String,
    pub external_action_id: String,
    pub applicant_id: String,
    pub action_type: String,
    pub review: ActionReview,
    pub checks: Option<Vec<Check>>,
    pub required_id_docs: Option<RequiredIdDocs>,
}

/// One check performed within an action.
#[derive(Debug)]
pub struct Check {
    pub answer: String,
    pub check_type: String,
    pub created_at: String,
    pub id: String,
    pub attempt_id: String,
    pub error_message: Option<String>,
}

/// The documents required for an action.
#[derive(Debug)]
pub struct RequiredIdDocs {
    pub doc_sets: Vec<DocSet>,
}

/// One document set.
#[derive(Debug)]
pub struct DocSet {
    pub id_doc_set_type: String,
    pub types: Vec<String>,
}

/// The review status of an applicant action.
#[derive(Debug)]
pub struct ActionReview {
    pub review_id: String,
    pub attempt_id: String,
    pub attempt_cnt: u32,
    pub level_name: String,
    pub create_date: String,
    pub review_status: String,
    pub review_result: Option<ReviewResult>,
}

/// The result of an action review.
#[derive(Debug)]
pub struct ReviewResult {
    pub review_answer: String,
}

/// The response to a request to check an action.
#[derive(Debug)]
pub struct RequestActionCheckResponse {
    pub id: String,
    pub created_at: String,
    pub client_id: String,
    pub external_action_id: String,
    pub applicant_id: String,
    pub review: ActionReview,
}

/// The response listing an applicant's actions.
#[derive(Debug)]
pub struct GetApplicantActionsResponse {
    pub items: Vec<ApplicantAction>,
    pub total_items: u32,
}

} // verus!
