//! Data structures for the "Checks" section of the API surface.

use vstd::prelude::*;

verus! {

use vstd::string::StringExecFns;

/// The kind of check that can be started or queried for an applicant.
#[derive(Debug, Clone, Copy)]
pub enum CheckType {
    Poa,
    SimilarSearch,
    Tin,
    Company,
    BankCard,
    EmailConfirmation,
    PhoneConfirmation,
    IpCheck,
    Nfc,
}

impl CheckType {
    /// The query-string value naming this check type on the wire.
    pub open spec fn spec_str(&self) -> Seq<char> {
        match self {
            CheckType::Poa => "POA"@,
            CheckType::SimilarSearch => "SIMILAR_SEARCH"@,
            CheckType::Tin => "TIN"@,
            CheckType::Company => "COMPANY"@,
            CheckType::BankCard => "BANK_CARD"@,
            CheckType::EmailConfirmation => "EMAIL_CONFIRMATION"@,
            CheckType::PhoneConfirmation => "PHONE_CONFIRMATION"@,
            CheckType::IpCheck => "IP_CHECK"@,
            CheckType::Nfc => "NFC"@,
        }
    }

    /// Renders the check type as its wire name.
    pub fn to_string(&self) -> (r: String)
        ensures
            r@ == self.spec_str(),
    {
        match self {
            CheckType::Poa => String::from_str("POA"),
            CheckType::SimilarSearch => String::from_str("SIMILAR_SEARCH"),
            CheckType::Tin => String::from_str("TIN"),
            CheckType::Company => String::from_str("COMPANY"),
            CheckType::BankCard => String::from_str("BANK_CARD"),
            CheckType::EmailConfirmation => String::from_str("EMAIL_CONFIRMATION"),
            CheckType::PhoneConfirmation => String::from_str("PHONE_CONFIRMATION"),
            CheckType::IpCheck => String::from_str("IP_CHECK"),
            CheckType::Nfc => String::from_str("NFC"),
        }
    }
}

/// A face rectangle reported by a document check.
#[derive(Debug)]
pub struct Face {
    pub l: i32,
    pub t: i32,
    pub r: i32,
    pub b: i32,
}

/// The latest bank-card check result for an applicant.
#[derive(Debug)]
pub struct BankCardCheckResult {
    pub applicant_id: String,
    pub card_holder: String,
    pub card_number_mask: String,
}

/// The latest email-confirmation check result for an applicant.
#[derive(Debug)]
pub struct EmailConfirmationCheckResult {
    pub applicant_id: String,
    pub email: String,
    pub confirmed: bool,
}

/// The latest phone-confirmation check result for an applicant.
#[derive(Debug)]
pub struct PhoneConfirmationCheckResult {
    pub applicant_id: String,
    pub phone: String,
    pub confirmed: bool,
}

/// The latest IP check result for an applicant.
#[derive(Debug)]
pub struct IpCheckResult {
    pub applicant_id: String,
}

/// The latest NFC check result for an applicant.
#[derive(Debug)]
pub struct NfcCheckResult {
    pub applicant_id: String,
    pub phone: String,
    pub confirmed: bool,
}

/// A request to start a specific check for an applicant.
#[derive(Debug)]
pub struct StartCheckRequest<'a> {
    pub applicant_id: &'a str,
    pub check_type: CheckType,
    pub address_info: Option<AddressInfo>,
}

/// A structured address accompanying a proof-of-address check.
#[derive(Debug)]
pub struct AddressInfo {
    pub country: String,
    pub post_code: String,
    pub town: String,
    pub street: String,
    pub sub_street: Option<String>,
    pub state: Option<String>,
    pub building_name: Option<String>,
    pub flat_number: Option<String>,
    pub building_number: Option<String>,
}

/// The latest similar-applicants search result.
#[derive(Debug)]
pub struct SimilarSearchResult {
    pub applicant_id: String,
    pub similar_applicants: Vec<SimilarApplicant>,
}

/// One applicant matched by a similar-applicants search.
#[derive(Debug)]
pub struct SimilarApplicant {
    pub id: String,
    pub match_type: String,
    pub review_answer: String,
}

/// The latest TIN check result for an applicant.
#[derive(Debug)]
pub struct TinCheckResult {
    pub applicant_id: String,
    pub ssn_status: String,
    pub validation_details: Option<String>,
}

} // verus!
