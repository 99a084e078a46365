//! Data structures for transaction monitoring.

use vstd::prelude::*;

verus! {

/// The address of a transaction participant.
#[derive(Debug, Default)]
pub struct TransactionAddress {
    pub country: String,
    pub post_code: Option<String>,
    pub town: Option<String>,
    pub state: Option<String>,
    pub street: Option<String>,
    pub sub_street: Option<String>,
    pub flat_number: Option<String>,
    pub building_number: Option<String>,
    pub building_name: Option<String>,
    pub formatted_address: Option<String>,
}

/// The information about a user platform event.
#[derive(Debug, Default)]
pub struct UserPlatformEventInfo {
    pub event_type: String,
}

/// The crypto parameters of a transaction.
#[derive(Debug, Default)]
pub struct CryptoParams {
    pub crypto_chain: Option<String>,
}

/// The information about a financial institution.
#[derive(Debug, Default)]
pub struct InstitutionInfo {
    pub address: Option<TransactionAddress>,
    pub code: Option<String>,
    pub name: Option<String>,
    pub internal_id: Option<String>,
}

/// A payment method.
#[derive(Debug, Default)]
pub struct PaymentMethod {
    pub payment_type: String,
    pub account_id: String,
    pub issuing_country: Option<String>,
}

/// The Travel Rule information of a transaction.
#[derive(Debug)]
pub struct TravelRuleInfo {
    pub protocol_name: String,
    pub applicant: TravelRuleParticipant,
    pub counterparty: TravelRuleParticipant,
    pub status: String,
    pub applicant_vasp_id: Option<String>,
    pub counterparty_vasp_id: Option<String>,
}

/// A participant in a Travel Rule transaction.
#[derive(Debug)]
pub struct TravelRuleParticipant {
    pub external_user_id: String,
    pub full_name: String,
}

/// The review status of a transaction.
#[derive(Debug)]
pub struct TransactionReview {
    pub review_id: String,
    pub attempt_id: String,
    pub attempt_cnt: u32,
    pub level_name: String,
    pub create_date: String,
    pub review_status: String,
    pub review_result: Option<TransactionReviewResult>,
}

/// The result of a transaction review.
#[derive(Debug)]
pub struct TransactionReviewResult {
    pub review_answer: String,
}

/// The response to deleting a transaction.
#[derive(Debug)]
pub struct DeleteTransactionResponse {
    pub deleted: u32,
}

/// The response to a bulk transaction import.
#[derive(Debug)]
pub struct BulkTransactionImportResponse {
    pub created_cnt: u32,
}

} // verus!
