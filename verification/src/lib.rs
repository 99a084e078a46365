//! Request signing and webhook verification for the Sumsub API.
//!
//! The crate centres on two independent components that share a keyed-hash
//! primitive: an outbound signer that authenticates API requests with
//! HMAC-SHA-256, and an inbound verifier that checks HMAC-SHA-1 signatures on
//! webhook deliveries.  A small hex codec and the data structures of the API
//! surface accompany them.

pub mod actions;
pub mod applicants;
pub mod checks;
pub mod codec;
pub mod device_intelligence;
pub mod kyb;
pub mod mac;
pub mod misc;
pub mod models;
pub mod non_doc;
pub mod signing;
pub mod text;
pub mod transactions;
pub mod travel_rule;
pub mod webhooks;
