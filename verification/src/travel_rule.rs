//! Data structures for Travel Rule compliance.

use vstd::prelude::*;

verus! {

use vstd::string::StringExecFns;

/// A request to initiate the SDK for a Travel Rule transaction.
#[derive(Debug, Default)]
pub struct InitiateSdkRequest {
    pub txn_id: String,
    pub user_id: String,
}

/// The response to initiating the SDK for a Travel Rule transaction.
#[derive(Debug)]
pub struct InitiateSdkResponse {
    pub success: bool,
}

/// A request to patch a transaction with a chain transaction ID.
#[derive(Debug, Default)]
pub struct PatchTransactionRequest {
    pub txn_chain_id: String,
}

/// The ownership status of a transaction.
#[derive(Debug, Clone, Copy)]
pub enum OwnershipStatus {
    Confirmed,
    Rejected,
}

impl OwnershipStatus {
    /// The path segment naming this status on the wire.
    pub open spec fn spec_str(&self) -> Seq<char> {
        match self {
            OwnershipStatus::Confirmed => "confirmed"@,
            OwnershipStatus::Rejected => "rejected"@,
        }
    }

    /// Renders the status as its wire name.
    pub fn to_string(&self) -> (r: String)
        ensures
            r@ == self.spec_str(),
    {
        match self {
            OwnershipStatus::Confirmed => String::from_str("confirmed"),
            OwnershipStatus::Rejected => String::from_str("rejected"),
        }
    }
}

/// A request to confirm wallet ownership.
#[derive(Debug)]
pub struct ConfirmWalletOwnershipRequest {
    pub public_key: String,
    pub signature: String,
}

/// A request to import wallet addresses.
#[derive(Debug, Default)]
pub struct ImportWalletAddressesRequest {
    pub address: String,
    pub currency: String,
    pub network: String,
}

/// The response to importing wallet addresses.
#[derive(Debug)]
pub struct ImportWalletAddressesResponse {
    pub imported: u32,
    pub not_imported: u32,
    pub failed: u32,
}

/// A request to block a transaction.
#[derive(Debug, Default)]
pub struct SetTransactionBlockRequest {
    pub reason: String,
    pub control: String,
}

/// The response listing available VASPs.
#[derive(Debug)]
pub struct VaspsResponse {
    pub list: VaspList,
}

/// A page of VASPs.
#[derive(Debug)]
pub struct VaspList {
    pub items: Vec<Vasp>,
}

/// One virtual-asset service provider.
#[derive(Debug)]
pub struct Vasp {
    pub id: String,
    pub name: String,
    pub website: String,
    pub logo: String,
    pub is_test: bool,
}

/// An applicant participant in a wallet ownership confirmation.
#[derive(Debug, Default)]
pub struct ApplicantParticipant {
    pub full_name: String,
    pub external_user_id: String,
    pub participant_type: String,
}

/// A wallet address to be imported.
#[derive(Debug, Default)]
pub struct WalletAddress {
    pub wallet_address: Option<String>,
    pub wallet_address_hash: Option<String>,
    pub asset: String,
    pub chain: Option<String>,
}

/// An error reported for one wallet address during import.
#[derive(Debug)]
pub struct ImportError {
    pub error: String,
    pub wallet_address_hash: Option<String>,
    pub wallet_address: Option<String>,
}

} // verus!
