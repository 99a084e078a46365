//! Data structures for business verification.

use vstd::prelude::*;

verus! {

/// The information about a company.
#[derive(Debug, Default)]
pub struct CompanyInfo {
    pub company_name: String,
    pub registration_number: String,
    pub country: String,
    pub incorporated_on: Option<String>,
    pub company_type: Option<String>,
    pub email: Option<String>,
    pub phone: Option<String>,
    pub website: Option<String>,
    pub address: Option<Address>,
}

/// A physical address of a company.
#[derive(Debug, Default)]
pub struct Address {
    pub country: String,
    pub post_code: Option<String>,
    pub town: Option<String>,
    pub street: Option<String>,
    pub sub_street: Option<String>,
}

/// The information about a new beneficiary.
#[derive(Debug, Default)]
pub struct BeneficiaryInfo {
    pub first_name: String,
    pub last_name: String,
    pub dob: Option<String>,
    pub email: Option<String>,
    pub tax_residence_country: Option<String>,
}

/// An industry code of a company.
#[derive(Debug)]
pub struct IndustryCode {
    pub code: String,
    pub description: String,
}

/// License information of a company.
#[derive(Debug)]
pub struct LicenseInfo {
    pub license_number: String,
    pub issued_date: String,
    pub valid_until: String,
}

/// A company officer.
#[derive(Debug)]
pub struct Officer {
    pub full_name: String,
    pub officer_type: String,
    pub dob: Option<String>,
    pub nationality: Option<String>,
    pub country: Option<String>,
    pub appointed_on: Option<String>,
    pub role: Option<String>,
    pub status: Option<String>,
}

} // verus!
