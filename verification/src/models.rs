//! Core data structures for applicant requests and responses.

use vstd::prelude::*;

verus! {

use crate::kyb::CompanyInfo;

/// A request to create a new applicant.
#[derive(Debug, Default)]
pub struct CreateApplicantRequest {
    /// A unique identifier for the applicant in the caller's system.
    pub external_user_id: String,
    /// The applicant's email address.
    pub email: Option<String>,
    /// The applicant's phone number.
    pub phone: Option<String>,
    /// The applicant's fixed information.
    pub fixed_info: Option<FixedInfo>,
    /// The type of applicant to create.
    pub applicant_type: Option<String>,
    pub info: Option<Info>,
}

/// The fixed information about an applicant.
#[derive(Debug, Default)]
pub struct FixedInfo {
    /// The applicant's country of residence.
    pub country: Option<String>,
    /// The applicant's first name.
    pub first_name: Option<String>,
    /// The applicant's last name.
    pub last_name: Option<String>,
    /// The applicant's date of birth in `YYYY-MM-DD` format.
    pub dob: Option<String>,
    /// The applicant's place of birth.
    pub place_of_birth: Option<String>,
    /// The company's information.
    pub company_info: Option<CompanyInfo>,
}

/// The information about an applicant.
#[derive(Debug, Default)]
pub struct Info {
    pub first_name: Option<String>,
    pub last_name: Option<String>,
    pub middle_name: Option<String>,
    pub legal_name: Option<String>,
    pub gender: Option<String>,
    pub dob: Option<String>,
    pub place_of_birth: Option<String>,
    pub country_of_birth: Option<String>,
    pub state_of_birth: Option<String>,
    pub country: Option<String>,
    pub nationality: Option<String>,
    pub addresses: Option<Vec<Address>>,
    pub tin: Option<String>,
    pub company_info: Option<CompanyInfo>,
}

/// A structured address of an applicant.
#[derive(Debug, Default)]
pub struct Address {
    pub country: String,
    pub post_code: String,
    pub town: String,
    pub street: String,
    pub sub_street: Option<String>,
    pub state: Option<String>,
    pub building_name: Option<String>,
    pub flat_number: Option<String>,
    pub building_number: Option<String>,
}

/// An applicant as the service reports it.
#[derive(Debug)]
pub struct Applicant {
    /// The unique identifier of the applicant.
    pub id: String,
    /// The timestamp of when the applicant was created.
    pub created_at: String,
    /// The ID of the client that the applicant belongs to.
    pub client_id: String,
    /// The ID of the inspection associated with the applicant.
    pub inspection_id: String,
    /// The external user ID of the applicant.
    pub external_user_id: String,
    /// The applicant's email address.
    pub email: Option<String>,
    /// The applicant's phone number.
    pub phone: Option<String>,
    /// The platform from which the applicant was created.
    pub applicant_platform: Option<String>,
    /// The review status of the applicant.
    pub review: Review,
    /// The type of the applicant, individual or company.
    pub applicant_type: String,
}

/// The review status of an applicant.
#[derive(Debug)]
pub struct Review {
    /// The review status, such as "completed" or "pending".
    pub review_status: String,
}

} // verus!
